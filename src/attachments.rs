//! Attachments: where stored files are placed, their digests, and the view
//! of an attachment that a template receives. Moving and reading the files
//! is the application's part.
use crate::decimal::{decimal_text, format_i64};
use vstd::prelude::*;

verus! {

/// The MD5 digest of a byte sequence, as the `md5` crate computes it.
pub uninterp spec fn md5_of(data: Seq<u8>) -> Seq<u8>;

/// Relies on md5::compute: the 16-byte MD5 digest of the data, which
/// depends on the data alone.
#[verifier::external_body]
fn md5_digest(data: &[u8]) -> (r: [u8; 16])
    ensures
        r@ == md5_of(data@),
{
    md5::compute(data).0
}

/// A hexadecimal digit, lower case.
pub open spec fn hex_digit(d: nat) -> char {
    if d < 10 {
        crate::decimal::digit_char(d)
    } else if d == 10 {
        'a'
    } else if d == 11 {
        'b'
    } else if d == 12 {
        'c'
    } else if d == 13 {
        'd'
    } else if d == 14 {
        'e'
    } else {
        'f'
    }
}

/// Bytes in lower-case hexadecimal, two digits each, high half first.
pub open spec fn hex_of(b: Seq<u8>) -> Seq<char>
    decreases b.len(),
{
    if b.len() == 0 {
        Seq::empty()
    } else {
        hex_of(b.drop_last()) + seq![
            hex_digit((b.last() / 16) as nat),
            hex_digit((b.last() % 16) as nat),
        ]
    }
}

/// Relies on hex::encode: each byte as two lower-case hex digits, high half
/// first, in order.
#[verifier::external_body]
fn hex_encode(data: &Vec<u8>) -> (r: String)
    ensures
        r@ == hex_of(data@),
{
    hex::encode(data)
}

/// Why storing or loading an attachment failed.
pub enum AttachmentStorageError {
    /// The file system failed.
    IoError,
    /// No file is stored at this path.
    NotFound(String),
}

/// Places attachment files in one directory, each under its id.
pub struct AttachmentStorage {
    storage_path: String,
}

/// Where the file of attachment `id` lives under `dir`: the id appended as a
/// path component.
pub open spec fn stored_path(dir: Seq<char>, id: i32) -> Seq<char> {
    if dir.len() == 0 || dir.last() == '/' {
        dir + decimal_text(id as int)
    } else {
        dir + "/"@ + decimal_text(id as int)
    }
}

impl View for AttachmentStorage {
    type V = Seq<char>;

    closed spec fn view(&self) -> Seq<char> {
        self.storage_path@
    }
}

impl AttachmentStorage {
    /// A store that keeps its files in `storage_path`.
    pub fn new(storage_path: String) -> (r: AttachmentStorage)
        ensures
            r@ == storage_path@,
    {
        AttachmentStorage { storage_path }
    }

    /// The path of the file of attachment `attachment_id`.
    pub fn path_for(&self, attachment_id: i32) -> (r: String)
        ensures
            r@ == stored_path(self@, attachment_id),
    {
        let mut path = self.storage_path.clone();
        let len = path.as_str().unicode_len();
        let needs_separator = len > 0 && path.as_str().get_char(len - 1) != '/';
        if needs_separator {
            path.append("/");
        }
        let id = format_i64(attachment_id as i64);
        path.append(id.as_str());
        proof {
            if !needs_separator && self@.len() > 0 {
                assert(self@.last() == self@[self@.len() - 1]);
            }
        }
        path
    }

    /// The record of an attachment whose file now sits at its place, with
    /// no digest computed yet.
    pub fn stored(&self, attachment_id: i32) -> (r: StoredAttachment)
        ensures
            r@ == (stored_path(self@, attachment_id), None::<Seq<u8>>),
    {
        StoredAttachment { path: self.path_for(attachment_id), md5sum: None }
    }
}

/// A stored file and its digest, computed at most once.
pub struct StoredAttachment {
    path: String,
    md5sum: Option<[u8; 16]>,
}

impl View for StoredAttachment {
    type V = (Seq<char>, Option<Seq<u8>>);

    closed spec fn view(&self) -> (Seq<char>, Option<Seq<u8>>) {
        (
            self.path@,
            match self.md5sum {
                Some(d) => Some(d@),
                None => None,
            },
        )
    }
}

impl StoredAttachment {
    /// Where the file is.
    pub fn path(&self) -> (r: &String)
        ensures
            r@ == self@.0,
    {
        &self.path
    }

    /// The digest, if it was computed.
    pub fn cached_md5(&self) -> (r: Option<[u8; 16]>)
        ensures
            match r {
                Some(d) => self@.1 == Some(d@),
                None => self@.1 is None,
            },
    {
        self.md5sum
    }

    /// The file's digest: the one computed before, or else that of
    /// `contents`, the file's bytes, which is kept from then on.
    pub fn get_or_compute_md5(&mut self, contents: &Vec<u8>) -> (r: [u8; 16])
        ensures
            final(self)@.0 == old(self)@.0,
            match old(self)@.1 {
                Some(d) => r@ == d && final(self)@.1 == old(self)@.1,
                None => r@ == md5_of(contents@) && final(self)@.1 == Some(r@),
            },
    {
        match self.md5sum {
            Some(d) => d,
            None => {
                let d = md5_digest(contents.as_slice());
                self.md5sum = Some(d);
                d
            },
        }
    }
}

/// An attachment: a stored file with a name, a MIME type and a digest.
pub struct Attachment {
    /// Unique id.
    pub id: i32,
    /// The friendly name.
    pub name: String,
    /// Whether the world may see it.
    pub published: bool,
    /// The MIME type, such as `image/png`.
    pub mime_type: String,
    /// The MD5 of the file.
    pub md5: Vec<u8>,
}

/// Where an attachment is served.
pub open spec fn attachment_url(id: i32, name: Seq<char>) -> Seq<char> {
    "/attachments/"@ + decimal_text(id as int) + "/"@ + name
}

impl Attachment {
    /// Where the attachment is served.
    pub fn url(&self) -> (r: String)
        ensures
            r@ == attachment_url(self.id, self.name@),
    {
        let mut r = String::from_str("/attachments/");
        let id = format_i64(self.id as i64);
        r.append(id.as_str());
        r.append("/");
        r.append(self.name.as_str());
        r
    }
}

/// An attachment as a template shows it.
pub struct AttachmentContext {
    pub id: i32,
    pub name: String,
    pub published: bool,
    pub mime_type: String,
    /// The digest in hexadecimal.
    pub md5: String,
    pub url: String,
}

impl AttachmentContext {
    /// The template's view of an attachment.
    pub fn from_model(attachment: &Attachment) -> (r: AttachmentContext)
        ensures
            r.id == attachment.id,
            r.name@ == attachment.name@,
            r.published == attachment.published,
            r.mime_type@ == attachment.mime_type@,
            r.md5@ == hex_of(attachment.md5@),
            r.url@ == attachment_url(attachment.id, attachment.name@),
    {
        AttachmentContext {
            id: attachment.id,
            name: attachment.name.clone(),
            published: attachment.published,
            mime_type: attachment.mime_type.clone(),
            md5: hex_encode(&attachment.md5),
            url: attachment.url(),
        }
    }
}

} // verus!
