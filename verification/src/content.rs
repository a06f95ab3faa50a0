//! The content variant: a closed, tagged representation of a document's raw
//! text in one of two markup dialects, with uniform attribute access.
//!
//! A document keeps two copies of its text: the source, which never changes,
//! and the working content, which attribute updates rewrite. Consuming the
//! document returns the working content; a document whose attributes were
//! never updated therefore yields back exactly its original text.
//!
//! The dialect grammar used here is line-based. A title line is the first
//! line that begins with the dialect's title marker (`"= "` or `"# "`). A
//! named attribute is the first line that begins with the dialect's marker
//! for that name (`":state: "` or `"state: "`); its value is the rest of
//! that line.

use vstd::prelude::*;
use vstd::string::StrSliceExecFns;
use vstd::string::StringExecFns;

use crate::text::{
    find_at_line_start, find_at_line_start_from, find_marker, lemma_find_agrees,
    lemma_find_props, lemma_line_end_none, lemma_line_end_props, lemma_line_end_value, line_end,
    line_end_from, match_at,
};

verus! {

/// An indicator of the dialect a document's text is written in.
#[derive(Debug, Clone, Copy, PartialEq, Eq, Structural)]
pub enum ContentFormat {
    Asciidoc,
    Markdown,
}

/// A document's text in one dialect: the unchanged source and the working
/// content that attribute updates rewrite.
struct VariantText {
    source: String,
    content: String,
}

/// The closed tagged union over the two dialects.
enum RfdContent {
    Asciidoc(VariantText),
    Markdown(VariantText),
}

/// A document ready to be rendered: its tagged content plus an identifier,
/// generated once at construction, that namespaces the per-render workspace.
pub struct RenderableRfd {
    content: RfdContent,
    pub(crate) render_id: String,
}

/// The dialect's title-line marker.
pub open spec fn title_marker(f: ContentFormat) -> Seq<char> {
    match f {
        ContentFormat::Asciidoc => "= "@,
        ContentFormat::Markdown => "# "@,
    }
}

/// The dialect's marker for the `state` attribute.
pub open spec fn state_marker(f: ContentFormat) -> Seq<char> {
    match f {
        ContentFormat::Asciidoc => ":state: "@,
        ContentFormat::Markdown => "state: "@,
    }
}

/// The dialect's marker for the `discussion` attribute.
pub open spec fn discussion_marker(f: ContentFormat) -> Seq<char> {
    match f {
        ContentFormat::Asciidoc => ":discussion: "@,
        ContentFormat::Markdown => "discussion: "@,
    }
}

/// The dialect's marker for the `labels` attribute.
pub open spec fn labels_marker(f: ContentFormat) -> Seq<char> {
    match f {
        ContentFormat::Asciidoc => ":labels: "@,
        ContentFormat::Markdown => "labels: "@,
    }
}

/// The value of the attribute introduced by marker `m`: the rest of the
/// first line of `s` that begins with `m`, or nothing when no line does.
pub open spec fn attr_value(s: Seq<char>, m: Seq<char>) -> Option<Seq<char>> {
    match find_at_line_start(s, m) {
        Some(i) => Some(
            s.subrange(i + m.len(), line_end_from(s, (i + m.len()) as nat)),
        ),
        None => None,
    }
}

/// `s` after setting the attribute introduced by marker `m` to `v`: the
/// value on the first line beginning with `m` is replaced; when no line
/// begins with `m`, a new attribute line is put in front of the text.
pub open spec fn updated_attr(s: Seq<char>, m: Seq<char>, v: Seq<char>) -> Seq<char> {
    match find_at_line_start(s, m) {
        Some(i) => s.subrange(0, i + m.len()) + v + s.subrange(
            line_end_from(s, (i + m.len()) as nat),
            s.len() as int,
        ),
        None => m + v + seq!['\n'] + s,
    }
}

/// The text above the title line, or nothing when no line carries the
/// dialect's title marker.
pub open spec fn header_of(s: Seq<char>, f: ContentFormat) -> Option<Seq<char>> {
    match find_at_line_start(s, title_marker(f)) {
        Some(i) => Some(s.subrange(0, i)),
        None => None,
    }
}

/// The text below the title line, or nothing when no line carries the
/// dialect's title marker.
pub open spec fn body_of(s: Seq<char>, f: ContentFormat) -> Option<Seq<char>> {
    match find_at_line_start(s, title_marker(f)) {
        Some(i) => {
            let e = line_end_from(s, (i + title_marker(f).len()) as nat);
            if e < s.len() {
                Some(s.subrange(e + 1, s.len() as int))
            } else {
                Some(Seq::empty())
            }
        },
        None => None,
    }
}

/// The document's authors: in Asciidoc, the line directly below the title
/// line; in Markdown, the `authors` attribute.
pub open spec fn authors_of(s: Seq<char>, f: ContentFormat) -> Option<Seq<char>> {
    match f {
        ContentFormat::Markdown => attr_value(s, "authors: "@),
        ContentFormat::Asciidoc => match find_at_line_start(s, title_marker(f)) {
            Some(i) => {
                let e = line_end_from(s, (i + title_marker(f).len()) as nat);
                if e < s.len() {
                    Some(s.subrange(e + 1, line_end_from(s, (e + 1) as nat)))
                } else {
                    None
                }
            },
            None => None,
        },
    }
}

/// The value of the attribute introduced by `marker`, borrowed from
/// `content`.
pub fn get_attr<'a>(content: &'a str, marker: &str) -> (r: Option<&'a str>)
    ensures
        match r {
            Some(t) => attr_value(content@, marker@) == Some(t@),
            None => attr_value(content@, marker@) is None,
        },
{
    match find_marker(content, marker) {
        Some(i) => {
            proof {
                lemma_find_props(content@, marker@, 0);
            }
            let n: usize = content.unicode_len();
            let m: usize = marker.unicode_len();
            let start: usize = i + m;
            let e: usize = line_end(content, start);
            Some(content.substring_char(start, e))
        },
        None => None,
    }
}

/// A copy of `content` with the attribute introduced by `marker` set to
/// `value`.
pub fn update_attr(content: &str, marker: &str, value: &str) -> (r: String)
    ensures
        r@ == updated_attr(content@, marker@, value@),
{
    match find_marker(content, marker) {
        Some(i) => {
            proof {
                lemma_find_props(content@, marker@, 0);
            }
            let n: usize = content.unicode_len();
            let m: usize = marker.unicode_len();
            let start: usize = i + m;
            let e: usize = line_end(content, start);
            let mut out = String::from_str(content.substring_char(0, start));
            out.append(value);
            out.append(content.substring_char(e, n));
            proof {
                assert(out@ =~= updated_attr(content@, marker@, value@));
            }
            out
        },
        None => {
            let mut out = String::from_str(marker);
            out.append(value);
            out.append("\n");
            out.append(content);
            proof {
                reveal_strlit("\n");
                assert("\n"@ =~= seq!['\n']);
                assert(out@ =~= updated_attr(content@, marker@, value@));
            }
            out
        },
    }
}

impl RenderableRfd {
    /// The dialect tag of this document's content.
    pub closed spec fn format_spec(&self) -> ContentFormat {
        match self.content {
            RfdContent::Asciidoc(_) => ContentFormat::Asciidoc,
            RfdContent::Markdown(_) => ContentFormat::Markdown,
        }
    }

    /// The original text the document was constructed from.
    pub closed spec fn source_spec(&self) -> Seq<char> {
        match self.content {
            RfdContent::Asciidoc(ref d) => d.source@,
            RfdContent::Markdown(ref d) => d.source@,
        }
    }

    /// The working text, reflecting every attribute update so far.
    pub closed spec fn content_spec(&self) -> Seq<char> {
        match self.content {
            RfdContent::Asciidoc(ref d) => d.content@,
            RfdContent::Markdown(ref d) => d.content@,
        }
    }

    /// The identifier that namespaces this document's render workspace.
    pub closed spec fn render_id_spec(&self) -> Seq<char> {
        self.render_id@
    }

    /// A well-formed document carries a render identifier of the fixed
    /// 36-character hyphenated form.
    pub open spec fn wf(&self) -> bool {
        self.render_id_spec().len() == 36
    }

    /// Construct a document from text in the given dialect.
    pub fn new_from_text(format: ContentFormat, content: String) -> (r: Self)
        ensures
            r.format_spec() == format,
            r.source_spec() == content@,
            r.content_spec() == content@,
            r.wf(),
    {
        match format {
            ContentFormat::Asciidoc => Self::new_asciidoc(content),
            ContentFormat::Markdown => Self::new_markdown(content),
        }
    }

    /// Construct a document whose content is in the first dialect.
    pub fn new_asciidoc(content: String) -> (r: Self)
        ensures
            r.format_spec() == ContentFormat::Asciidoc,
            r.source_spec() == content@,
            r.content_spec() == content@,
            r.wf(),
    {
        let source = content.clone();
        RenderableRfd {
            content: RfdContent::Asciidoc(VariantText { source, content }),
            render_id: fresh_render_id(),
        }
    }

    /// Construct a document whose content is in the second dialect.
    pub fn new_markdown(content: String) -> (r: Self)
        ensures
            r.format_spec() == ContentFormat::Markdown,
            r.source_spec() == content@,
            r.content_spec() == content@,
            r.wf(),
    {
        let source = content.clone();
        RenderableRfd {
            content: RfdContent::Markdown(VariantText { source, content }),
            render_id: fresh_render_id(),
        }
    }

    /// The original unparsed text, unchanged by any attribute update.
    pub fn raw(&self) -> (r: &str)
        ensures
            r@ == self.source_spec(),
    {
        match &self.content {
            RfdContent::Asciidoc(d) => d.source.as_str(),
            RfdContent::Markdown(d) => d.source.as_str(),
        }
    }

    /// The dialect of the content.
    pub fn format(&self) -> (r: ContentFormat)
        ensures
            r == self.format_spec(),
    {
        match &self.content {
            RfdContent::Asciidoc(_) => ContentFormat::Asciidoc,
            RfdContent::Markdown(_) => ContentFormat::Markdown,
        }
    }

    /// Consume the document, returning text that reflects every attribute
    /// update applied since construction.
    pub fn into_inner_content(self) -> (r: String)
        ensures
            r@ == self.content_spec(),
    {
        match self.content {
            RfdContent::Asciidoc(d) => d.content,
            RfdContent::Markdown(d) => d.content,
        }
    }

    /// The working text, for crate-internal collaborators.
    pub(crate) fn content_str(&self) -> (r: &str)
        ensures
            r@ == self.content_spec(),
    {
        match &self.content {
            RfdContent::Asciidoc(d) => d.content.as_str(),
            RfdContent::Markdown(d) => d.content.as_str(),
        }
    }

    /// The render identifier, for crate-internal collaborators.
    pub(crate) fn render_id_str(&self) -> (r: &str)
        ensures
            r@ == self.render_id_spec(),
    {
        self.render_id.as_str()
    }

    /// The dialect's title marker as text.
    fn title_marker_str(&self) -> (r: &'static str)
        ensures
            r@ == title_marker(self.format_spec()),
    {
        match &self.content {
            RfdContent::Asciidoc(_) => "= ",
            RfdContent::Markdown(_) => "# ",
        }
    }

    /// The text above the title line, or nothing when no title is found.
    pub fn header(&self) -> (r: Option<&str>)
        ensures
            match r {
                Some(t) => header_of(self.content_spec(), self.format_spec()) == Some(t@),
                None => header_of(self.content_spec(), self.format_spec()) is None,
            },
    {
        let c = self.content_str();
        let m = self.title_marker_str();
        match find_marker(c, m) {
            Some(i) => {
                proof {
                    lemma_find_props(c@, m@, 0);
                }
                Some(c.substring_char(0, i))
            },
            None => None,
        }
    }

    /// The text below the title line, or nothing when no title is found.
    pub fn body(&self) -> (r: Option<&str>)
        ensures
            match r {
                Some(t) => body_of(self.content_spec(), self.format_spec()) == Some(t@),
                None => body_of(self.content_spec(), self.format_spec()) is None,
            },
    {
        let c = self.content_str();
        let m = self.title_marker_str();
        let n: usize = c.unicode_len();
        match find_marker(c, m) {
            Some(i) => {
                proof {
                    lemma_find_props(c@, m@, 0);
                }
                let ml: usize = m.unicode_len();
                let e: usize = line_end(c, i + ml);
                if e < n {
                    Some(c.substring_char(e + 1, n))
                } else {
                    let empty = c.substring_char(n, n);
                    proof {
                        assert(empty@ =~= Seq::<char>::empty());
                    }
                    Some(empty)
                }
            },
            None => None,
        }
    }

    /// The title text: the rest of the title line, after the marker.
    pub fn get_title(&self) -> (r: Option<&str>)
        ensures
            match r {
                Some(t) => attr_value(self.content_spec(), title_marker(self.format_spec()))
                    == Some(t@),
                None => attr_value(self.content_spec(), title_marker(self.format_spec())) is None,
            },
    {
        get_attr(self.content_str(), self.title_marker_str())
    }

    /// The value of the `state` attribute.
    pub fn get_state(&self) -> (r: Option<&str>)
        ensures
            match r {
                Some(t) => attr_value(self.content_spec(), state_marker(self.format_spec()))
                    == Some(t@),
                None => attr_value(self.content_spec(), state_marker(self.format_spec())) is None,
            },
    {
        match &self.content {
            RfdContent::Asciidoc(d) => get_attr(d.content.as_str(), ":state: "),
            RfdContent::Markdown(d) => get_attr(d.content.as_str(), "state: "),
        }
    }

    /// Set the `state` attribute in the working text. The source text, the
    /// dialect tag and the render identifier stay as they were.
    pub fn update_state(&mut self, value: &str)
        ensures
            final(self).content_spec() == updated_attr(
                old(self).content_spec(),
                state_marker(old(self).format_spec()),
                value@,
            ),
            final(self).source_spec() == old(self).source_spec(),
            final(self).format_spec() == old(self).format_spec(),
            final(self).render_id_spec() == old(self).render_id_spec(),
    {
        match &mut self.content {
            RfdContent::Asciidoc(d) => {
                let updated = update_attr(d.content.as_str(), ":state: ", value);
                d.content = updated;
            },
            RfdContent::Markdown(d) => {
                let updated = update_attr(d.content.as_str(), "state: ", value);
                d.content = updated;
            },
        }
    }

    /// The value of the `discussion` attribute.
    pub fn get_discussion(&self) -> (r: Option<&str>)
        ensures
            match r {
                Some(t) => attr_value(self.content_spec(), discussion_marker(self.format_spec()))
                    == Some(t@),
                None => attr_value(
                    self.content_spec(),
                    discussion_marker(self.format_spec()),
                ) is None,
            },
    {
        match &self.content {
            RfdContent::Asciidoc(d) => get_attr(d.content.as_str(), ":discussion: "),
            RfdContent::Markdown(d) => get_attr(d.content.as_str(), "discussion: "),
        }
    }

    /// Set the `discussion` attribute in the working text.
    pub fn update_discussion(&mut self, value: &str)
        ensures
            final(self).content_spec() == updated_attr(
                old(self).content_spec(),
                discussion_marker(old(self).format_spec()),
                value@,
            ),
            final(self).source_spec() == old(self).source_spec(),
            final(self).format_spec() == old(self).format_spec(),
            final(self).render_id_spec() == old(self).render_id_spec(),
    {
        match &mut self.content {
            RfdContent::Asciidoc(d) => {
                let updated = update_attr(d.content.as_str(), ":discussion: ", value);
                d.content = updated;
            },
            RfdContent::Markdown(d) => {
                let updated = update_attr(d.content.as_str(), "discussion: ", value);
                d.content = updated;
            },
        }
    }

    /// The document's authors, read-only at this layer.
    pub fn get_authors(&self) -> (r: Option<&str>)
        ensures
            match r {
                Some(t) => authors_of(self.content_spec(), self.format_spec()) == Some(t@),
                None => authors_of(self.content_spec(), self.format_spec()) is None,
            },
    {
        match &self.content {
            RfdContent::Markdown(d) => get_attr(d.content.as_str(), "authors: "),
            RfdContent::Asciidoc(d) => {
                let c = d.content.as_str();
                let m = self.title_marker_str();
                let n: usize = c.unicode_len();
                match find_marker(c, m) {
                    Some(i) => {
                        proof {
                            lemma_find_props(c@, m@, 0);
                        }
                        let ml: usize = m.unicode_len();
                        let e: usize = line_end(c, i + ml);
                        if e < n {
                            let e2: usize = line_end(c, e + 1);
                            Some(c.substring_char(e + 1, e2))
                        } else {
                            None
                        }
                    },
                    None => None,
                }
            },
        }
    }

    /// The value of the `labels` attribute.
    pub fn get_labels(&self) -> (r: Option<&str>)
        ensures
            match r {
                Some(t) => attr_value(self.content_spec(), labels_marker(self.format_spec()))
                    == Some(t@),
                None => attr_value(self.content_spec(), labels_marker(self.format_spec())) is None,
            },
    {
        match &self.content {
            RfdContent::Asciidoc(d) => get_attr(d.content.as_str(), ":labels: "),
            RfdContent::Markdown(d) => get_attr(d.content.as_str(), "labels: "),
        }
    }

    /// Set the `labels` attribute in the working text.
    pub fn update_labels(&mut self, value: &str)
        ensures
            final(self).content_spec() == updated_attr(
                old(self).content_spec(),
                labels_marker(old(self).format_spec()),
                value@,
            ),
            final(self).source_spec() == old(self).source_spec(),
            final(self).format_spec() == old(self).format_spec(),
            final(self).render_id_spec() == old(self).render_id_spec(),
    {
        match &mut self.content {
            RfdContent::Asciidoc(d) => {
                let updated = update_attr(d.content.as_str(), ":labels: ", value);
                d.content = updated;
            },
            RfdContent::Markdown(d) => {
                let updated = update_attr(d.content.as_str(), "labels: ", value);
                d.content = updated;
            },
        }
    }
}

/// Law: reading an attribute directly after setting it returns exactly the
/// value that was set, for any non-empty marker and any value free of line
/// breaks.
pub proof fn lemma_get_after_update(s: Seq<char>, m: Seq<char>, v: Seq<char>)
    requires
        m.len() >= 1,
        forall|k: int| 0 <= k < v.len() ==> v[k] != '\n',
    ensures
        attr_value(updated_attr(s, m, v), m) == Some(v),
{
    let u = updated_attr(s, m, v);
    let ml = m.len() as int;
    match find_at_line_start(s, m) {
        Some(i) => {
            lemma_find_props(s, m, 0);
            let e = line_end_from(s, (i + ml) as nat);
            lemma_line_end_props(s, (i + ml) as nat);
            assert(forall|k: int| 0 <= k < i + ml ==> u[k] == s[k]);
            lemma_find_agrees(s, u, m, 0, i as nat);
            let vstart = i + ml;
            let vend = vstart + v.len() as int;
            assert(forall|k: int| vstart <= k < vend ==> u[k] == v[k - vstart]);
            if e < s.len() {
                assert(u[vend] == s[e]);
                assert(s[e] == '\n');
                lemma_line_end_value(u, vstart as nat, vend as nat);
            } else {
                assert(u.len() == vend);
                lemma_line_end_none(u, vstart as nat);
            }
            assert(u.subrange(vstart, vend) =~= v);
        },
        None => {
            assert(match_at(u, m, 0)) by {
                assert(u.subrange(0, ml) =~= m);
            }
            assert(find_at_line_start_from(u, m, 0) == Some(0int));
            let vend = ml + v.len() as int;
            assert(forall|k: int| ml <= k < vend ==> u[k] == v[k - ml]);
            assert(u[vend] == '\n');
            lemma_line_end_value(u, m.len(), vend as nat);
            assert(u.subrange(ml, vend) =~= v);
        },
    }
}

/// Law: a document whose attribute updates never ran still holds its
/// original text, so consuming it yields back exactly what was put in.
pub proof fn lemma_round_trip(doc: RenderableRfd, text: Seq<char>)
    requires
        doc.source_spec() == text,
        doc.content_spec() == doc.source_spec(),
    ensures
        doc.content_spec() == text,
{
}

/// Relies on `uuid::Uuid::new_v4` and the hyphenated `Display` form of
/// `uuid::Uuid`: a freshly generated version-4 identifier, rendered in the
/// fixed 36-character hyphenated form. Nothing is assumed about which
/// identifier comes back.
#[verifier::external_body]
fn fresh_render_id() -> (r: String)
    ensures
        r@.len() == 36,
{
    uuid::Uuid::new_v4().to_string()
}

} // verus!
