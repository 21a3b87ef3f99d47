//! The navbar's breadcrumbs and the form a template receives them in.
use vstd::prelude::*;

verus! {

/// A piece of the navbar.
#[derive(Debug, Clone, Copy, PartialEq, Eq, Structural)]
pub enum Breadcrumb {
    /// Links to the home page.
    Home,
}

/// The navbar's pieces, in order; never empty.
pub struct Breadcrumbs(Vec<Breadcrumb>);

impl View for Breadcrumbs {
    type V = Seq<Breadcrumb>;

    closed spec fn view(&self) -> Seq<Breadcrumb> {
        self.0@
    }
}

/// One piece of the navbar as a template shows it.
pub struct BreadcrumbContext {
    content: String,
    href: String,
}

impl View for BreadcrumbContext {
    type V = (Seq<char>, Seq<char>);

    closed spec fn view(&self) -> (Seq<char>, Seq<char>) {
        (self.content@, self.href@)
    }
}

/// The navbar as a template shows it.
pub struct BreadcrumbsContext(Vec<BreadcrumbContext>);

impl View for BreadcrumbsContext {
    type V = Seq<(Seq<char>, Seq<char>)>;

    closed spec fn view(&self) -> Seq<(Seq<char>, Seq<char>)> {
        self.0@.map_values(|c: BreadcrumbContext| c@)
    }
}

/// The text and link of a piece.
pub open spec fn crumb_view(c: Breadcrumb) -> (Seq<char>, Seq<char>) {
    match c {
        Breadcrumb::Home => ("Home"@, "/"@),
    }
}

impl BreadcrumbContext {
    fn new(content: &str, href: &str) -> (r: BreadcrumbContext)
        ensures
            r@ == (content@, href@),
    {
        BreadcrumbContext { content: String::from_str(content), href: String::from_str(href) }
    }

    /// The text shown.
    pub fn content(&self) -> (r: &String)
        ensures
            r@ == self@.0,
    {
        &self.content
    }

    /// Where it links to.
    pub fn href(&self) -> (r: &String)
        ensures
            r@ == self@.1,
    {
        &self.href
    }
}

impl Breadcrumb {
    fn to_breadcrumb_context(&self) -> (r: BreadcrumbContext)
        ensures
            r@ == crumb_view(*self),
    {
        match self {
            Breadcrumb::Home => BreadcrumbContext::new("Home", "/"),
        }
    }
}

impl BreadcrumbsContext {
    /// The pieces, in order.
    pub fn crumbs(&self) -> (r: &Vec<BreadcrumbContext>)
        ensures
            r@.map_values(|c: BreadcrumbContext| c@) == self@,
    {
        &self.0
    }
}

impl Breadcrumbs {
    /// A navbar of the given pieces, or of the home page alone when none are
    /// given.
    pub fn from_crumbs(crumbs: Vec<Breadcrumb>) -> (r: Breadcrumbs)
        ensures
            r@ == (if crumbs@.len() == 0 {
                seq![Breadcrumb::Home]
            } else {
                crumbs@
            }),
    {
        if crumbs.len() == 0 {
            let v = vec![Breadcrumb::Home];
            assert(v@ =~= seq![Breadcrumb::Home]);
            Breadcrumbs(v)
        } else {
            Breadcrumbs(crumbs)
        }
    }

    /// The navbar as a template shows it: each piece's text and link, in order.
    pub fn to_context(&self) -> (r: BreadcrumbsContext)
        ensures
            r@ == self@.map_values(|c: Breadcrumb| crumb_view(c)),
    {
        let mut out: Vec<BreadcrumbContext> = Vec::new();
        let mut i: usize = 0;
        while i < self.0.len()
            invariant
                0 <= i <= self.0@.len(),
                out@.len() == i,
                forall|j: int| 0 <= j < i ==> (#[trigger] out@[j])@ == crumb_view(self.0@[j]),
            decreases self.0@.len() - i,
        {
            out.push(self.0[i].to_breadcrumb_context());
            i = i + 1;
        }
        let r = BreadcrumbsContext(out);
        assert(r@ =~= self@.map_values(|c: Breadcrumb| crumb_view(c)));
        r
    }
}

} // verus!
