//! Tag-level view of an XML document and the structural queries the decoder
//! runs on it: where an element closes, which of its children carry a name,
//! and what text a leaf element holds.
use fast_xml::events::Event;
use fast_xml::Reader;
use vstd::prelude::*;

verus! {

/// One event of a document, as the decoder sees it.
pub enum XmlToken {
    Open(String),
    Close(String),
    Text(String),
}

/// Mathematical value of an `XmlToken`.
pub enum Tok {
    Open(Seq<char>),
    Close(Seq<char>),
    Text(Seq<char>),
}

impl View for XmlToken {
    type V = Tok;

    open spec fn view(&self) -> Tok {
        match self {
            XmlToken::Open(n) => Tok::Open(n@),
            XmlToken::Close(n) => Tok::Close(n@),
            XmlToken::Text(s) => Tok::Text(s@),
        }
    }
}

pub open spec fn toks_view(v: Seq<XmlToken>) -> Seq<Tok> {
    v.map_values(|t: XmlToken| t@)
}

/// The token sequence of a document: start and end tags (an empty element
/// gives both), and non-blank text with surrounding whitespace trimmed and
/// entities resolved; `None` where the document is not well formed.
pub uninterp spec fn xml_tokens_of(s: Seq<char>) -> Option<Seq<Tok>>;

/// Relies on fast_xml::Reader (trimmed text, expanded empty elements, end
/// names checked): the start, end and text events of `s` in document order,
/// or the reader's message where it reports an error.
#[verifier::external_body]
pub(crate) fn xml_tokens(s: &str) -> (r: Result<Vec<XmlToken>, String>)
    ensures
        r is Ok ==> xml_tokens_of(s@) == Some(toks_view(r->Ok_0@)),
        r is Err <==> xml_tokens_of(s@) is None,
{
    let mut reader = Reader::from_str(s);
    reader.trim_text(true).expand_empty_elements(true);
    let mut out = vec![];
    loop {
        match reader.read_event_unbuffered() {
            Ok(Event::Start(e)) => out.push(XmlToken::Open(String::from_utf8_lossy(e.name()).into())),
            Ok(Event::End(e)) => out.push(XmlToken::Close(String::from_utf8_lossy(e.name()).into())),
            Ok(Event::Text(e)) => out.push(XmlToken::Text(e.unescape_and_decode(&reader).map_err(
                |x| x.to_string())?)),
            Ok(Event::Eof) => return Ok(out),
            Err(e) => return Err(e.to_string()),
            _ => {},
        }
    }
}

/// Change of nesting depth that a token makes.
pub open spec fn delta(t: Tok) -> int {
    match t {
        Tok::Open(_) => 1,
        Tok::Close(_) => -1,
        Tok::Text(_) => 0,
    }
}

/// Nesting depth after the tokens `a .. j`, counted from `a`.
pub open spec fn nest(t: Seq<Tok>, a: int, j: int) -> int
    decreases j - a,
{
    if j <= a {
        0
    } else {
        nest(t, a, j - 1) + delta(t[j - 1])
    }
}

/// First position `k >= i` at which the depth counted from `a` returns to zero
/// (the tokens `a ..= k` are balanced); -1 if there is none.
pub open spec fn close_from(t: Seq<Tok>, a: int, i: int) -> int
    decreases t.len() - i,
{
    if i < a || i >= t.len() {
        -1
    } else if nest(t, a, i + 1) == 0 {
        i
    } else {
        close_from(t, a, i + 1)
    }
}

/// Position of the token that closes the element opened at `a`; -1 if `a`
/// opens no element or the element is never closed.
pub open spec fn close_of(t: Seq<Tok>, a: int) -> int {
    if 0 <= a < t.len() && t[a] is Open {
        close_from(t, a, a)
    } else {
        -1
    }
}

/// Position of the first child element named `n`, walking the children that
/// start at `c` and stop before `e`; -1 if there is none. A child that is
/// not closed before `e` ends the walk.
pub open spec fn child_from(t: Seq<Tok>, c: int, e: int, n: Seq<char>) -> int
    decreases e - c,
{
    if c < 0 || c >= e || c >= t.len() {
        -1
    } else {
        match t[c] {
            Tok::Open(m) => {
                let d = close_of(t, c);
                if c < d && d < e {
                    if m == n {
                        c
                    } else {
                        child_from(t, d + 1, e, n)
                    }
                } else {
                    -1
                }
            },
            _ => child_from(t, c + 1, e, n),
        }
    }
}

/// Positions of all child elements named `n`, in document order, with the
/// same walk as `child_from`.
pub open spec fn children_from(t: Seq<Tok>, c: int, e: int, n: Seq<char>) -> Seq<int>
    decreases e - c,
{
    if c < 0 || c >= e || c >= t.len() {
        seq![]
    } else {
        match t[c] {
            Tok::Open(m) => {
                let d = close_of(t, c);
                if c < d && d < e {
                    if m == n {
                        seq![c] + children_from(t, d + 1, e, n)
                    } else {
                        children_from(t, d + 1, e, n)
                    }
                } else {
                    seq![]
                }
            },
            _ => children_from(t, c + 1, e, n),
        }
    }
}

/// Text held by the element opened at `c`: the token right after its start
/// tag when that is text, else empty.
pub open spec fn leaf_text(t: Seq<Tok>, c: int) -> Seq<char> {
    if 0 <= c && c + 1 < t.len() {
        match t[c + 1] {
            Tok::Text(s) => s,
            _ => seq![],
        }
    } else {
        seq![]
    }
}

/// First child named `n` of the element spanning `a ..= e`; -1 if none.
pub open spec fn child_named(t: Seq<Tok>, a: int, e: int, n: Seq<char>) -> int {
    child_from(t, a + 1, e, n)
}

/// Text of the first child named `n` of the element spanning `a ..= e`, or
/// `None` when there is no such child.
pub open spec fn field_text(t: Seq<Tok>, a: int, e: int, n: Seq<char>) -> Option<Seq<char>> {
    let c = child_named(t, a, e, n);
    if c >= 0 {
        Some(leaf_text(t, c))
    } else {
        None
    }
}

/// Where the element opened at `a` closes.
pub fn element_end(toks: &Vec<XmlToken>, a: usize) -> (r: Option<usize>)
    requires
        a < toks@.len(),
    ensures
        match r {
            Some(e) => e as int == close_of(toks_view(toks@), a as int) && a < e
                && e < toks@.len(),
            None => close_of(toks_view(toks@), a as int) == -1,
        },
{
    let ghost t = toks_view(toks@);
    match &toks[a] {
        XmlToken::Open(_) => {},
        _ => {
            return None;
        },
    }
    let n = toks.len();
    assert(t[a as int] == toks@[a as int]@);
    assert(nest(t, a as int, a as int) == 0);
    assert(nest(t, a as int, a as int + 1) == 1);
    let mut depth: usize = 1;
    let mut i: usize = a + 1;
    while i < toks.len()
        invariant
            a < i <= toks@.len(),
            t == toks_view(toks@),
            t[a as int] is Open,
            depth as int == nest(t, a as int, i as int),
            1 <= depth <= i - a,
            close_from(t, a as int, a as int) == close_from(t, a as int, i as int),
        decreases toks@.len() - i,
    {
        match &toks[i] {
            XmlToken::Open(_) => {
                assert(t[i as int] == toks@[i as int]@);
                depth = depth + 1;
            },
            XmlToken::Close(_) => {
                assert(t[i as int] == toks@[i as int]@);
                if depth == 1 {
                    assert(nest(t, a as int, i as int + 1) == 0);
                    return Some(i);
                }
                depth = depth - 1;
            },
            XmlToken::Text(_) => {
                assert(t[i as int] == toks@[i as int]@);
            },
        }
        assert(nest(t, a as int, i as int + 1) == depth);
        i = i + 1;
    }
    None
}

/// Where the first child named `name` of the element spanning `a ..= e`
/// opens and closes.
pub fn find_child(toks: &Vec<XmlToken>, a: usize, e: usize, name: &str) -> (r: Option<(usize, usize)>)
    requires
        a < e < toks@.len(),
    ensures
        match r {
            Some((c, d)) => c as int == child_named(toks_view(toks@), a as int, e as int, name@)
                && d as int == close_of(toks_view(toks@), c as int) && c < d < e,
            None => child_named(toks_view(toks@), a as int, e as int, name@) == -1,
        },
{
    let ghost t = toks_view(toks@);
    let key = String::from_str(name);
    let mut c: usize = a + 1;
    while c < e
        invariant
            a < c <= e + 1,
            e < toks@.len(),
            t == toks_view(toks@),
            key@ == name@,
            child_from(t, a as int + 1, e as int, name@) == child_from(t, c as int, e as int, name@),
        decreases e - c,
    {
        match &toks[c] {
            XmlToken::Open(m) => {
                match element_end(toks, c) {
                    Some(d) => {
                        if d >= e {
                            return None;
                        }
                        if *m == key {
                            return Some((c, d));
                        }
                        c = d + 1;
                    },
                    None => {
                        return None;
                    },
                }
            },
            _ => {
                c = c + 1;
            },
        }
    }
    None
}

/// Positions (start, close) of all children named `name` of the element
/// spanning `a ..= e`, in document order.
pub fn find_children(toks: &Vec<XmlToken>, a: usize, e: usize, name: &str) -> (r: Vec<(usize, usize)>)
    requires
        a < e < toks@.len(),
    ensures
        r@.len() == children_from(toks_view(toks@), a as int + 1, e as int, name@).len(),
        forall|i: int|
            0 <= i < r@.len() ==> {
                let (c, d) = #[trigger] r@[i];
                &&& c as int == children_from(toks_view(toks@), a as int + 1, e as int, name@)[i]
                &&& d as int == close_of(toks_view(toks@), c as int)
                &&& c < d < e
            },
{
    let ghost t = toks_view(toks@);
    let key = String::from_str(name);
    let mut out: Vec<(usize, usize)> = Vec::new();
    let mut c: usize = a + 1;
    while c < e
        invariant
            a < c <= e + 1,
            e < toks@.len(),
            t == toks_view(toks@),
            key@ == name@,
            children_from(t, a as int + 1, e as int, name@) == out@.map_values(
                |p: (usize, usize)| p.0 as int,
            ) + children_from(t, c as int, e as int, name@),
            forall|i: int|
                0 <= i < out@.len() ==> {
                    let (c, d) = #[trigger] out@[i];
                    &&& d as int == close_of(t, c as int)
                    &&& c < d < e
                },
        decreases e - c,
    {
        match &toks[c] {
            XmlToken::Open(m) => {
                match element_end(toks, c) {
                    Some(d) => {
                        assert(t[c as int] == toks@[c as int]@);
                        if d >= e {
                            assert(children_from(t, c as int, e as int, name@) =~= seq![]);
                            c = e;
                        } else {
                            if *m == key {
                                let ghost prev = out@;
                                out.push((c, d));
                                assert(out@.map_values(|p: (usize, usize)| p.0 as int)
                                    =~= prev.map_values(|p: (usize, usize)| p.0 as int) + seq![
                                    c as int,
                                ]);
                            }
                            c = d + 1;
                        }
                    },
                    None => {
                        assert(t[c as int] == toks@[c as int]@);
                        assert(children_from(t, c as int, e as int, name@) =~= seq![]);
                        c = e;
                    },
                }
            },
            _ => {
                c = c + 1;
            },
        }
    }
    assert(children_from(t, c as int, e as int, name@) =~= seq![]);
    assert(children_from(t, a as int + 1, e as int, name@) =~= out@.map_values(
        |p: (usize, usize)| p.0 as int,
    ));
    out
}

/// The text of the element opened at `c`.
pub fn text_at(toks: &Vec<XmlToken>, c: usize) -> (r: String)
    requires
        c < toks@.len(),
    ensures
        r@ == leaf_text(toks_view(toks@), c as int),
{
    let n = toks.len();
    if c + 1 < n {
        match &toks[c + 1] {
            XmlToken::Text(s) => s.clone(),
            _ => String::new(),
        }
    } else {
        String::new()
    }
}

} // verus!
