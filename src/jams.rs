//! Game jams: what an edit form does to a jam, and the view of a jam that a
//! template receives. Reading and writing jams is the application's part.
//! A jam's dates are carried as the date library's values; nothing here
//! looks inside them.
use crate::attachments::{Attachment, AttachmentContext, hex_of, attachment_url};
use crate::error_handlers::HandlerError;
use crate::guards::UserOptional;
use crate::models::{ApprovalState, ApprovalStateParseError, human_name};
use crate::rich_texts::{RichText, markdown_html};
use chrono::NaiveDateTime;
use vstd::prelude::*;

verus! {

/// chrono's date and time without a zone, carried through as it is.
#[verifier::external_type_specification]
#[verifier::external_body]
pub struct ExNaiveDateTime(chrono::NaiveDateTime);

/// True when chrono reads the text as a date and time
/// (`YYYY-MM-DDTHH:MM:SS` with an optional fraction).
pub uninterp spec fn datetime_text_valid(text: Seq<char>) -> bool;

/// Relies on `<chrono::NaiveDateTime as FromStr>::from_str`: whether a text
/// parses depends on the text alone.
#[verifier::external_body]
fn parse_datetime(text: &str) -> (r: Option<NaiveDateTime>)
    ensures
        r is Some <==> datetime_text_valid(text@),
{
    text.parse::<NaiveDateTime>().ok()
}

/// Relies on `<chrono::NaiveDateTime as Display>::fmt`, through `to_string`:
/// the date as chrono prints it.
#[verifier::external_body]
fn datetime_to_string(d: &NaiveDateTime) -> (r: String) {
    d.to_string()
}

/// A game jam.
pub struct Jam {
    pub id: i32,
    pub title: String,
    pub slug: String,
    pub summary: String,
    pub summary_attachment_id: Option<i32>,
    pub rich_text_id: i32,
    pub start_date: NaiveDateTime,
    pub end_date: NaiveDateTime,
    pub approval_state: ApprovalState,
}

/// The fields of a jam's edit form.
pub struct JamFormData {
    pub id: i32,
    pub title: String,
    pub slug: String,
    pub summary: String,
    pub rich_text_content: String,
    pub start_date: String,
    pub end_date: String,
    pub approval_state: String,
}

/// The first error an edit form meets: an unreadable date, then an unknown
/// approval state.
pub open spec fn form_error(form: JamFormData) -> Option<HandlerError> {
    if !datetime_text_valid(form.start_date@) || !datetime_text_valid(form.end_date@) {
        Some(HandlerError::ParseError)
    } else if forall|a: ApprovalState| human_name(a) != form.approval_state@ {
        Some(HandlerError::ApprovalStateParseError)
    } else {
        None
    }
}

impl Jam {
    /// A new jam as it is first stored: placeholder texts, no summary
    /// attachment, both dates at `now`, in draft.
    pub fn blank(id: i32, rich_text_id: i32, now: &NaiveDateTime) -> (r: Jam)
        ensures
            r.id == id,
            r.rich_text_id == rich_text_id,
            r.title@ == "My Jam"@,
            r.slug@ == "my-jam"@,
            r.summary@ == "My really cool game jam"@,
            r.summary_attachment_id is None,
            r.start_date == *now,
            r.end_date == *now,
            r.approval_state == ApprovalState::Draft,
    {
        Jam {
            id,
            title: String::from_str("My Jam"),
            slug: String::from_str("my-jam"),
            summary: String::from_str("My really cool game jam"),
            summary_attachment_id: None,
            rich_text_id,
            start_date: *now,
            end_date: *now,
            approval_state: ApprovalState::Draft,
        }
    }

    /// Applies an edit form to the jam and its rich text. The form's texts
    /// replace the jam's, its dates are read, and its approval state is read
    /// from the name people use. When a date or the state cannot be read,
    /// nothing changes and the error says which.
    pub fn apply_form(&mut self, rich_text: &mut RichText, form: &JamFormData) -> (r: Result<
        (),
        HandlerError,
    >)
        ensures
            match form_error(*form) {
                Some(e) => r == Err::<(), HandlerError>(e) && *final(self) == *old(self)
                    && *final(rich_text) == *old(rich_text),
                None => {
                    &&& r is Ok
                    &&& final(self).id == old(self).id
                    &&& final(self).rich_text_id == old(self).rich_text_id
                    &&& final(self).summary_attachment_id == old(self).summary_attachment_id
                    &&& final(self).title@ == form.title@
                    &&& final(self).slug@ == form.slug@
                    &&& final(self).summary@ == form.summary@
                    &&& human_name(final(self).approval_state) == form.approval_state@
                    &&& final(rich_text).id == old(rich_text).id
                    &&& final(rich_text).content@ == form.rich_text_content@
                },
            },
    {
        let start = match parse_datetime(form.start_date.as_str()) {
            Some(d) => d,
            None => return Err(HandlerError::ParseError),
        };
        let end = match parse_datetime(form.end_date.as_str()) {
            Some(d) => d,
            None => return Err(HandlerError::ParseError),
        };
        let state = match ApprovalState::from_human_str(form.approval_state.as_str()) {
            Ok(a) => a,
            Err(ApprovalStateParseError::UnrecognizedApprovalState(_)) => {
                return Err(HandlerError::ApprovalStateParseError);
            },
        };
        self.title = form.title.clone();
        self.slug = form.slug.clone();
        self.summary = form.summary.clone();
        self.start_date = start;
        self.end_date = end;
        self.approval_state = state;
        rich_text.content = form.rich_text_content.clone();
        Ok(())
    }
}

/// A jam as a template shows it.
pub struct JamContext {
    pub id: i32,
    pub title: String,
    pub slug: String,
    pub summary: String,
    pub summary_attachment: Option<AttachmentContext>,
    pub rich_text_content: String,
    pub rendered_rich_text_content: Option<String>,
    pub start_date: String,
    pub end_date: String,
    pub approval_state: String,
}

impl JamContext {
    /// The template's view of a jam, from the jam, its summary attachment if
    /// it has one, and its rich text; the Markdown is rendered only when
    /// asked for.
    pub fn from_model(
        jam: &Jam,
        attachment: Option<&Attachment>,
        rich_text: &RichText,
        render_markdown: bool,
    ) -> (r: JamContext)
        ensures
            r.id == jam.id,
            r.title@ == jam.title@,
            r.slug@ == jam.slug@,
            r.summary@ == jam.summary@,
            r.rich_text_content@ == rich_text.content@,
            r.approval_state@ == human_name(jam.approval_state),
            match attachment {
                Some(a) => r.summary_attachment matches Some(c) && c.id == a.id && c.md5@
                    == hex_of(a.md5@) && c.url@ == attachment_url(a.id, a.name@),
                None => r.summary_attachment is None,
            },
            if render_markdown {
                r.rendered_rich_text_content matches Some(h) && h@ == markdown_html(
                    rich_text.content@,
                )
            } else {
                r.rendered_rich_text_content is None
            },
    {
        JamContext {
            id: jam.id,
            title: jam.title.clone(),
            slug: jam.slug.clone(),
            summary: jam.summary.clone(),
            summary_attachment: match attachment {
                Some(a) => Some(AttachmentContext::from_model(a)),
                None => None,
            },
            rich_text_content: rich_text.content.clone(),
            rendered_rich_text_content: if render_markdown {
                Some(rich_text.render())
            } else {
                None
            },
            start_date: datetime_to_string(&jam.start_date),
            end_date: datetime_to_string(&jam.end_date),
            approval_state: jam.approval_state.to_human_str(),
        }
    }
}

/// Whether the home page lists every jam: only for an admin who asked to;
/// everyone else sees approved jams only.
pub fn show_all_jams(user: &UserOptional, requested: Option<bool>) -> (r: bool)
    ensures
        r == (user@.user is Some && crate::guards::is_admin_view(user@.permissions)
            && requested == Some(true)),
{
    let asked = match requested {
        Some(b) => b,
        None => false,
    };
    user.is_admin() && asked
}

} // verus!
