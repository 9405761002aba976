//! Fragments as fixed markup with field slots, and their rendering.

use vstd::prelude::*;

verus! {

/// One piece of a fragment: fixed markup, a field written as escaped text, or
/// a field inserted as it is (markup rendered elsewhere).
#[derive(Debug, Clone, Copy)]
pub enum Segment {
    Markup(&'static str),
    Text(usize),
    Html(usize),
}

/// The mathematical form of a segment.
pub enum SegmentView {
    Markup(Seq<char>),
    Text(nat),
    Html(nat),
}

impl View for Segment {
    type V = SegmentView;

    open spec fn view(&self) -> SegmentView {
        match *self {
            Segment::Markup(m) => SegmentView::Markup(m@),
            Segment::Text(i) => SegmentView::Text(i as nat),
            Segment::Html(i) => SegmentView::Html(i as nat),
        }
    }
}

pub open spec fn escape_char(c: char) -> Seq<char> {
    if c == '<' {
        seq!['&', 'l', 't', ';']
    } else if c == '>' {
        seq!['&', 'g', 't', ';']
    } else if c == '&' {
        seq!['&', 'a', 'm', 'p', ';']
    } else if c == '"' {
        seq!['&', 'q', 'u', 'o', 't', ';']
    } else if c == '\'' {
        seq!['&', '#', 'x', '2', '7', ';']
    } else {
        seq![c]
    }
}

/// Text written for HTML: each character replaced by its escape.
pub open spec fn html_escaped(s: Seq<char>) -> Seq<char>
    decreases s.len(),
{
    if s.len() == 0 {
        Seq::empty()
    } else {
        html_escaped(s.drop_last()) + escape_char(s.last())
    }
}

/// The characters that open or close a tag or an attribute value.
pub open spec fn is_markup_char(c: char) -> bool {
    c == '<' || c == '>' || c == '"' || c == '\''
}

/// Relies on askama's `MarkupDisplay` with the `Html` escaper: it writes
/// `&lt;`, `&gt;`, `&amp;`, `&quot;` and `&#x27;` for `<`, `>`, `&`, `"` and
/// `'`, and every other character as it is.
#[verifier::external_body]
pub(crate) fn escape_html(s: &str) -> (r: String)
    ensures
        r@ == html_escaped(s@),
{
    askama::MarkupDisplay::new_unsafe(s, askama::Html).to_string()
}

/// Whether every field slot of `t` names one of `n` values.
pub open spec fn slots_within(t: Seq<SegmentView>, n: nat) -> bool {
    forall|k: int|
        0 <= k < t.len() ==> match #[trigger] t[k] {
            SegmentView::Markup(_) => true,
            SegmentView::Text(i) => i < n,
            SegmentView::Html(i) => i < n,
        }
}

pub open spec fn segment_text(s: SegmentView, values: Seq<Seq<char>>) -> Seq<char> {
    match s {
        SegmentView::Markup(m) => m,
        SegmentView::Text(i) => html_escaped(values[i as int]),
        SegmentView::Html(i) => values[i as int],
    }
}

/// The text of a fragment whose fields hold `values`.
pub open spec fn rendered(t: Seq<SegmentView>, values: Seq<Seq<char>>) -> Seq<char>
    decreases t.len(),
{
    if t.len() == 0 {
        Seq::empty()
    } else {
        rendered(t.drop_last(), values) + segment_text(t.last(), values)
    }
}

/// The text that each segment contributes, in order.
pub open spec fn pieces(t: Seq<SegmentView>, values: Seq<Seq<char>>) -> Seq<Seq<char>> {
    t.map_values(|s: SegmentView| segment_text(s, values))
}

pub open spec fn joined(parts: Seq<Seq<char>>) -> Seq<char>
    decreases parts.len(),
{
    if parts.len() == 0 {
        Seq::empty()
    } else {
        joined(parts.drop_last()) + parts.last()
    }
}

/// `n` empty field values.
pub open spec fn blank_values(n: nat) -> Seq<Seq<char>> {
    Seq::new(n, |i: int| Seq::<char>::empty())
}

pub open spec fn segments_view(t: Seq<Segment>) -> Seq<SegmentView> {
    t.map_values(|s: Segment| s@)
}

/// Writes the fragment `t` with its fields set to `values`.
pub fn render(t: &Vec<Segment>, values: &Vec<String>) -> (r: String)
    requires
        slots_within(segments_view(t@), values@.len()),
    ensures
        r@ == rendered(segments_view(t@), values.deep_view()),
{
    let ghost vals = values.deep_view();
    let ghost tv = segments_view(t@);
    let mut out = String::new();
    let mut k: usize = 0;
    while k < t.len()
        invariant
            k <= t@.len(),
            tv == segments_view(t@),
            vals == values.deep_view(),
            slots_within(tv, values@.len()),
            out@ == rendered(tv.subrange(0, k as int), vals),
        decreases t@.len() - k,
    {
        let seg = t[k];
        assert(tv[k as int] == seg@);
        match seg {
            Segment::Markup(m) => {
                out.append(m);
            },
            Segment::Text(i) => {
                let e = escape_html(values[i].as_str());
                out.append(e.as_str());
            },
            Segment::Html(i) => {
                out.append(values[i].as_str());
            },
        }
        assert(tv.subrange(0, k as int + 1).drop_last() =~= tv.subrange(0, k as int));
        k = k + 1;
    }
    assert(tv.subrange(0, t@.len() as int) =~= tv);
    out
}

proof fn lemma_escaped_has_no_markup(s: Seq<char>)
    ensures
        forall|j: int|
            0 <= j < html_escaped(s).len() ==> !is_markup_char(#[trigger] html_escaped(s)[j]),
    decreases s.len(),
{
    if s.len() > 0 {
        lemma_escaped_has_no_markup(s.drop_last());
        let a = html_escaped(s.drop_last());
        let b = escape_char(s.last());
        assert forall|j: int| 0 <= j < (a + b).len() implies !is_markup_char(#[trigger] (a + b)[j]) by {
            if j >= a.len() {
                assert(b[j - a.len()] == (a + b)[j]);
            } else {
                assert(a[j] == (a + b)[j]);
            }
        }
    }
}

proof fn lemma_rendered_is_joined_pieces(t: Seq<SegmentView>, values: Seq<Seq<char>>)
    ensures
        rendered(t, values) == joined(pieces(t, values)),
    decreases t.len(),
{
    if t.len() > 0 {
        lemma_rendered_is_joined_pieces(t.drop_last(), values);
        assert(pieces(t, values).drop_last() =~= pieces(t.drop_last(), values));
    }
}

/// A fragment keeps its markup whatever its fields hold: written with any
/// values or with every field empty, it is the same sequence of pieces, where
/// each markup piece is the same text in both and each field piece is empty in
/// the empty form. A text field's piece holds no `<`, `>`, `"` or `'`, so it
/// opens no element and leaves no attribute.
pub proof fn lemma_skeleton_shape(t: Seq<SegmentView>, values: Seq<Seq<char>>)
    requires
        slots_within(t, values.len()),
    ensures
        rendered(t, values) == joined(pieces(t, values)),
        rendered(t, blank_values(values.len())) == joined(pieces(t, blank_values(values.len()))),
        pieces(t, values).len() == t.len(),
        pieces(t, blank_values(values.len())).len() == t.len(),
        forall|k: int|
            0 <= k < t.len() ==> match #[trigger] t[k] {
                SegmentView::Markup(m) => pieces(t, values)[k] == m && pieces(
                    t,
                    blank_values(values.len()),
                )[k] == m,
                SegmentView::Text(_) => pieces(t, blank_values(values.len()))[k].len() == 0
                    && forall|j: int|
                    0 <= j < pieces(t, values)[k].len() ==> !is_markup_char(
                        #[trigger] pieces(t, values)[k][j],
                    ),
                SegmentView::Html(_) => pieces(t, blank_values(values.len()))[k].len() == 0,
            },
{
    let blank = blank_values(values.len());
    lemma_rendered_is_joined_pieces(t, values);
    lemma_rendered_is_joined_pieces(t, blank);
    assert forall|k: int| 0 <= k < t.len() implies match #[trigger] t[k] {
        SegmentView::Markup(m) => pieces(t, values)[k] == m && pieces(t, blank)[k] == m,
        SegmentView::Text(_) => pieces(t, blank)[k].len() == 0 && forall|j: int|
            0 <= j < pieces(t, values)[k].len() ==> !is_markup_char(
                #[trigger] pieces(t, values)[k][j],
            ),
        SegmentView::Html(_) => pieces(t, blank)[k].len() == 0,
    } by {
        match t[k] {
            SegmentView::Markup(m) => {},
            SegmentView::Text(i) => {
                assert(html_escaped(Seq::<char>::empty()) == Seq::<char>::empty());
                lemma_escaped_has_no_markup(values[i as int]);
            },
            SegmentView::Html(i) => {},
        }
    }
}

} // verus!
