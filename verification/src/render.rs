//! Rendering a document to a PDF artifact: the per-render workspace, image
//! staging, and orchestration of the external conversion capability.
//!
//! The three outside collaborators — the source-control client that lists a
//! document's images, the file store holding the render workspace, and the
//! document-to-PDF conversion capability — are supplied by the caller
//! through the traits below, so the orchestration itself is ordinary
//! verified code.

use vstd::prelude::*;
use vstd::string::StrSliceExecFns;
use vstd::string::StringExecFns;

use base64::Engine;

use crate::content::{ContentFormat, RenderableRfd};
use crate::errors::{FileIoError, GitHubError, RfdContentError, RfdOutputError, TaskError};
use crate::text::{
    is_prefix, lemma_skip_bounds, marker_at, skip_leading_from, trim_leading, trim_leading_char,
};

verus! {

/// A document's identifying number.
#[derive(Debug, Clone, Copy, PartialEq, Eq, Structural)]
pub struct RfdNumber {
    pub value: u32,
}

/// A source-control reference — repository and branch — identifying where a
/// document's current version and its images live.
#[derive(Debug, Clone)]
pub struct GitHubRfdLocation {
    pub owner: String,
    pub repo: String,
    pub branch: String,
}

/// An image stored beside a document: its repository path and its bytes in
/// standard base64, free of line breaks.
#[derive(Debug, Clone)]
pub struct ImageDescriptor {
    pub path: String,
    pub content: String,
}

/// The source-control collaborator: lists the images stored for a document
/// at a location.
pub trait SourceControlClient {
    fn get_images(&mut self, number: &RfdNumber, location: &GitHubRfdLocation) -> Result<
        Vec<ImageDescriptor>,
        GitHubError,
    >;
}

/// The file store holding render workspaces.
pub trait FileStore {
    /// Create a directory and any missing parents; succeeds when the
    /// directory already exists.
    fn create_dir_all(&mut self, path: &str) -> Result<(), FileIoError>;

    /// Write a file, creating parent directories as needed.
    fn write_file(&mut self, path: &str, contents: &[u8]) -> Result<(), FileIoError>;

    /// Whether a directory exists at the path.
    fn dir_exists(&mut self, path: &str) -> bool;

    /// Recursively remove a directory.
    fn remove_dir_all(&mut self, path: &str) -> Result<(), FileIoError>;
}

/// The external document-to-PDF conversion capability: renders content,
/// reading staged images from the given workspace directory.
pub trait PdfConverter {
    fn convert(&mut self, content: &str, content_dir: &str) -> Result<RenderedPdf, TaskError>;
}

/// The byte buffer produced by the conversion capability.
pub struct RenderedPdf(Vec<u8>);

impl View for RenderedPdf {
    type V = Seq<u8>;

    closed spec fn view(&self) -> Seq<u8> {
        self.0@
    }
}

impl RenderedPdf {
    /// Consume the wrapper and return the rendered bytes.
    pub fn into_inner(self) -> (r: Vec<u8>)
        ensures
            r@ == self@,
    {
        self.0
    }
}

impl From<Vec<u8>> for RenderedPdf {
    fn from(value: Vec<u8>) -> (r: Self) {
        RenderedPdf(value)
    }
}

impl vstd::std_specs::convert::FromSpecImpl<Vec<u8>> for RenderedPdf {
    closed spec fn obeys_from_spec() -> bool {
        true
    }

    closed spec fn from_spec(v: Vec<u8>) -> RenderedPdf {
        RenderedPdf(v)
    }
}

/// Law: wrapping bytes as a rendered PDF and unwrapping them returns the
/// same bytes — `From` obeys its specification, and what it wraps is what
/// `into_inner` hands back.
pub proof fn lemma_rendered_pdf_round_trip(v: Vec<u8>)
    ensures
        <RenderedPdf as vstd::std_specs::convert::FromSpec<Vec<u8>>>::obeys_from_spec(),
        (<RenderedPdf as vstd::std_specs::convert::FromSpec<Vec<u8>>>::from_spec(v))@ == v@,
{
}

/// The output artifact: the rendered bytes tagged with the document's
/// number.
pub struct RfdPdf {
    pub contents: Vec<u8>,
    pub number: RfdNumber,
}

/// The decimal digits of `n`, most significant first.
pub open spec fn dec_digits(n: nat) -> Seq<char>
    decreases n,
{
    if n < 10 {
        seq![digit_char(n)]
    } else {
        dec_digits(n / 10) + seq![digit_char(n % 10)]
    }
}

/// The character for the decimal digit `d`.
pub open spec fn digit_char(d: nat) -> char {
    ((d + 48) as u8) as char
}

/// The decimal digits of `n`, left-padded with zeros to at least four
/// characters.
pub open spec fn padded4(n: nat) -> Seq<char> {
    if n < 10 {
        "000"@ + dec_digits(n)
    } else if n < 100 {
        "00"@ + dec_digits(n)
    } else if n < 1000 {
        "0"@ + dec_digits(n)
    } else {
        dec_digits(n)
    }
}

/// The repository directory holding a document's files.
pub open spec fn repo_path_spec(n: nat) -> Seq<char> {
    "/rfd/"@ + padded4(n)
}

/// The single-character text for the decimal digit `d`.
fn digit_str(d: u32) -> (r: &'static str)
    requires
        d < 10,
    ensures
        r@ == seq![digit_char(d as nat)],
{
    let r: &'static str = match d {
        0 => "0",
        1 => "1",
        2 => "2",
        3 => "3",
        4 => "4",
        5 => "5",
        6 => "6",
        7 => "7",
        8 => "8",
        _ => "9",
    };
    proof {
        reveal_strlit("0");
        reveal_strlit("1");
        reveal_strlit("2");
        reveal_strlit("3");
        reveal_strlit("4");
        reveal_strlit("5");
        reveal_strlit("6");
        reveal_strlit("7");
        reveal_strlit("8");
        reveal_strlit("9");
        assert(r@ =~= seq![digit_char(d as nat)]);
    }
    r
}

/// Append the decimal digits of `n` to `out`.
fn push_digits(n: u32, out: &mut String)
    ensures
        final(out)@ == old(out)@ + dec_digits(n as nat),
    decreases n,
{
    if n < 10 {
        out.append(digit_str(n));
    } else {
        push_digits(n / 10, out);
        out.append(digit_str(n % 10));
        proof {
            assert(out@ =~= old(out)@ + dec_digits(n as nat));
        }
    }
}

impl RfdNumber {
    /// The repository directory holding this document's files: the number,
    /// zero-padded to at least four digits, under the documents root.
    pub fn repo_path(&self) -> (r: String)
        ensures
            r@ == repo_path_spec(self.value as nat),
    {
        let mut out = String::from_str("/rfd/");
        if self.value < 10 {
            out.append("000");
        } else if self.value < 100 {
            out.append("00");
        } else if self.value < 1000 {
            out.append("0");
        }
        push_digits(self.value, &mut out);
        proof {
            assert(out@ =~= repo_path_spec(self.value as nat));
        }
        out
    }
}

/// The workspace path derived for a render identifier under a temporary
/// root: the root, a fixed subfolder, then the identifier.
pub open spec fn workspace_path_spec(root: Seq<char>, id: Seq<char>) -> Seq<char> {
    root + "/rfd-render/"@ + id
}

/// Where an image is staged: the image's repository path, relative to the
/// document's own directory (leading separators trimmed on both sides
/// before comparison), placed under the workspace.
pub open spec fn image_destination_spec(
    storage: Seq<char>,
    dir: Seq<char>,
    image_path: Seq<char>,
) -> Seq<char> {
    let d = trim_leading(dir, '/');
    let p = trim_leading(image_path, '/');
    let rel = if is_prefix(d, p) {
        trim_leading(p.subrange(d.len() as int, p.len() as int), '/')
    } else {
        p
    };
    storage + "/"@ + rel
}

/// Compute where an image is staged inside the workspace.
pub fn image_destination(storage_path: &str, dir: &str, image_path: &str) -> (r: String)
    ensures
        r@ == image_destination_spec(storage_path@, dir@, image_path@),
{
    let d: &str = trim_leading_char(dir, '/');
    let p: &str = trim_leading_char(image_path, '/');
    let dl: usize = d.unicode_len();
    let pl: usize = p.unicode_len();
    let rel: &str = if marker_at(p, d, 0) {
        trim_leading_char(p.substring_char(dl, pl), '/')
    } else {
        p
    };
    let mut out = String::from_str(storage_path);
    out.append("/");
    out.append(rel);
    proof {
        assert(out@ =~= image_destination_spec(storage_path@, dir@, image_path@));
    }
    out
}

/// What the base64 engine decodes a piece of text to: the byte payload when
/// the text is well-formed standard base64, or nothing.
pub uninterp spec fn base64_decoded(s: Seq<char>) -> Option<Seq<u8>>;

/// Relies on `base64::Engine::decode` with the standard-alphabet engine:
/// the outcome is a function of the input text alone, and malformed input
/// is rejected with a decode error.
#[verifier::external_body]
pub fn decode_base64(content: &str) -> (r: Result<Vec<u8>, base64::DecodeError>)
    ensures
        match r {
            Ok(v) => base64_decoded(content@) == Some(v@),
            Err(_) => base64_decoded(content@) is None,
        },
{
    base64::engine::general_purpose::STANDARD.decode(content)
}

/// Stage a fetched descriptor list into the workspace, sequentially: each
/// descriptor's base64 content is decoded and written at its mirrored path.
/// Staging succeeds only when every descriptor decodes; it aborts at the
/// first descriptor whose content has no base64 decoding, after every
/// earlier descriptor was decoded and handed to the store — images already
/// written stay in place.
pub fn stage_descriptors<F: FileStore>(
    store: &mut F,
    images: &Vec<ImageDescriptor>,
    storage_path: &str,
    dir: &str,
) -> (r: Result<(), RfdContentError>)
    ensures
        match r {
            Ok(_) => forall|i: int|
                0 <= i < images@.len() ==> base64_decoded(#[trigger] images@[i].content@) is Some,
            Err(e) => (e matches RfdContentError::Decode(_) || e matches RfdContentError::File(_))
                && (e matches RfdContentError::Decode(_) ==> exists|i: int|
                0 <= i < images@.len() && base64_decoded(#[trigger] images@[i].content@) is None
                    && forall|j: int|
                    0 <= j < i ==> base64_decoded(#[trigger] images@[j].content@) is Some),
        },
{
    let mut idx: usize = 0;
    while idx < images.len()
        invariant
            idx <= images@.len(),
            forall|j: int|
                0 <= j < idx ==> base64_decoded(#[trigger] images@[j].content@) is Some,
        decreases images.len() - idx,
    {
        let image = &images[idx];
        let dest = image_destination(storage_path, dir, image.path.as_str());
        let bytes = match decode_base64(image.content.as_str()) {
            Ok(b) => b,
            Err(e) => {
                return Err(RfdContentError::Decode(e));
            },
        };
        match store.write_file(dest.as_str(), bytes.as_slice()) {
            Ok(_) => {},
            Err(e) => {
                return Err(RfdContentError::File(e));
            },
        }
        idx += 1;
    }
    Ok(())
}

impl RenderableRfd {
    /// Derive the workspace path for this render under the given temporary
    /// root. The path is a function of the root and the document's render
    /// identifier alone, so repeated calls return the same path.
    pub fn workspace_path(&self, tmp_root: &str) -> (r: String)
        ensures
            r@ == workspace_path_spec(tmp_root@, self.render_id_spec()),
    {
        let mut out = String::from_str(tmp_root);
        out.append("/rfd-render/");
        out.append(self.render_id_str());
        proof {
            assert(out@ =~= workspace_path_spec(tmp_root@, self.render_id_spec()));
        }
        out
    }

    /// Stage the images stored for the document at the given location into
    /// the render workspace: each descriptor's base64 content is decoded and
    /// written at a path mirroring its repository layout, sequentially. A
    /// failure aborts the remaining staging; images already written stay in
    /// place.
    pub fn download_images<C: SourceControlClient, F: FileStore>(
        &self,
        client: &mut C,
        store: &mut F,
        number: &RfdNumber,
        location: &GitHubRfdLocation,
        tmp_root: &str,
    ) -> (r: Result<(), RfdContentError>)
        ensures
            match r {
                Ok(_) => true,
                Err(e) => e matches RfdContentError::File(_) || e
                    matches RfdContentError::GitHub(_) || e matches RfdContentError::Decode(_),
            },
    {
        let dir = number.repo_path();
        let storage_path = self.workspace_path(tmp_root);
        match store.create_dir_all(storage_path.as_str()) {
            Ok(_) => {},
            Err(e) => {
                return Err(RfdContentError::File(e));
            },
        }
        let images = match client.get_images(number, location) {
            Ok(v) => v,
            Err(e) => {
                return Err(RfdContentError::GitHub(e));
            },
        };
        stage_descriptors(store, &images, storage_path.as_str(), dir.as_str())
    }

    /// Remove the render workspace if it exists.
    pub fn cleanup_tmp_path<F: FileStore>(&self, store: &mut F, tmp_root: &str) -> (r: Result<
        (),
        RfdContentError,
    >)
        ensures
            match r {
                Ok(_) => true,
                Err(e) => e matches RfdContentError::File(_),
            },
    {
        let storage_path = self.workspace_path(tmp_root);
        if store.dir_exists(storage_path.as_str()) {
            match store.remove_dir_all(storage_path.as_str()) {
                Ok(_) => Ok(()),
                Err(e) => Err(RfdContentError::File(e)),
            }
        } else {
            Ok(())
        }
    }

    /// Render the document to a PDF artifact tagged with its number.
    ///
    /// Only the Asciidoc dialect supports PDF rendering: a Markdown document
    /// is rejected with `FormatNotSupported` before any collaborator is
    /// consulted — and that error arises in no other way.
    /// Images are staged first and a staging failure is returned at once,
    /// leaving the workspace in place. Then the conversion capability runs
    /// with the working content and the workspace path; its failure is
    /// returned as a command error. Only after a successful conversion is
    /// workspace cleanup attempted, and a cleanup failure is swallowed.
    pub fn to_pdf<C: SourceControlClient, F: FileStore, P: PdfConverter>(
        &self,
        client: &mut C,
        store: &mut F,
        converter: &mut P,
        number: &RfdNumber,
        branch: &GitHubRfdLocation,
        tmp_root: &str,
    ) -> (r: Result<RfdPdf, RfdOutputError>)
        ensures
            (self.format_spec() == ContentFormat::Markdown) <==> (r matches Err(
                RfdOutputError::FormatNotSupported,
            )),
            r matches Ok(pdf) ==> pdf.number == *number && self.format_spec()
                == ContentFormat::Asciidoc,
            match r {
                Ok(_) => true,
                Err(e) => e matches RfdOutputError::FormatNotSupported || e
                    matches RfdOutputError::Command(_) || (e matches RfdOutputError::ContentFailure(
                    c,
                ) && (c matches RfdContentError::File(_) || c matches RfdContentError::GitHub(_)
                    || c matches RfdContentError::Decode(_))),
            },
    {
        match self.format() {
            ContentFormat::Asciidoc => {
                match self.download_images(client, store, number, branch, tmp_root) {
                    Ok(_) => {},
                    Err(e) => {
                        return Err(RfdOutputError::from_content(e));
                    },
                }
                let path = self.workspace_path(tmp_root);
                let pdf = match converter.convert(self.content_str(), path.as_str()) {
                    Ok(p) => p,
                    Err(e) => {
                        return Err(RfdOutputError::Command(e));
                    },
                };
                let _ = self.cleanup_tmp_path(store, tmp_root);
                Ok(RfdPdf { contents: pdf.into_inner(), number: *number })
            },
            ContentFormat::Markdown => Err(RfdOutputError::FormatNotSupported),
        }
    }
}

/// Law: the workspace path is a function of the root and the document's
/// render identifier alone — two derivations for the same document under
/// the same root give the same path.
pub proof fn lemma_workspace_path_deterministic(
    doc: RenderableRfd,
    root: Seq<char>,
    first: Seq<char>,
    second: Seq<char>,
)
    requires
        first == workspace_path_spec(root, doc.render_id_spec()),
        second == workspace_path_spec(root, doc.render_id_spec()),
    ensures
        first == second,
{
}

/// Law: documents with distinct render identifiers get distinct workspace
/// paths under any shared root, so two renders never share a workspace.
pub proof fn lemma_distinct_ids_distinct_paths(
    a: RenderableRfd,
    b: RenderableRfd,
    root: Seq<char>,
)
    requires
        a.wf(),
        b.wf(),
        a.render_id_spec() != b.render_id_spec(),
    ensures
        workspace_path_spec(root, a.render_id_spec()) != workspace_path_spec(
            root,
            b.render_id_spec(),
        ),
{
    let prefix = root + "/rfd-render/"@;
    let x = workspace_path_spec(root, a.render_id_spec());
    let y = workspace_path_spec(root, b.render_id_spec());
    if x == y {
        assert forall|k: int| 0 <= k < 36 implies a.render_id_spec()[k] == b.render_id_spec()[k] by {
            assert(x[prefix.len() + k] == a.render_id_spec()[k]);
            assert(y[prefix.len() + k] == b.render_id_spec()[k]);
        }
        assert(a.render_id_spec() =~= b.render_id_spec());
    }
}

/// The first non-separator position shifts by one when a separator is put
/// in front of the text.
proof fn lemma_skip_shift(p: Seq<char>, c: char, i: nat)
    requires
        i <= p.len(),
    ensures
        skip_leading_from(seq![c] + p, c, i + 1) == skip_leading_from(p, c, i) + 1,
    decreases p.len() - i,
{
    if i < p.len() && p[i as int] == c {
        lemma_skip_shift(p, c, i + 1);
    }
}

/// Law: a leading separator on the image's repository path does not change
/// where the image is staged.
pub proof fn lemma_destination_ignores_leading_separator(
    storage: Seq<char>,
    dir: Seq<char>,
    image_path: Seq<char>,
)
    ensures
        image_destination_spec(storage, dir, seq!['/'] + image_path) == image_destination_spec(
            storage,
            dir,
            image_path,
        ),
{
    let s = seq!['/'] + image_path;
    assert(s[0] == '/');
    lemma_skip_shift(image_path, '/', 0);
    lemma_skip_bounds(image_path, '/', 0);
    let k = skip_leading_from(image_path, '/', 0);
    assert(skip_leading_from(s, '/', 0) == skip_leading_from(s, '/', 1));
    assert(skip_leading_from(s, '/', 0) == k + 1);
    assert forall|j: int| 0 <= j < image_path.len() - k implies trim_leading(s, '/')[j]
        == trim_leading(image_path, '/')[j] by {
        assert(trim_leading(s, '/')[j] == s[k + 1 + j]);
        assert(s[k + 1 + j] == image_path[k + j]);
    }
    assert(trim_leading(s, '/') =~= trim_leading(image_path, '/'));
}

} // verus!
