//! Text rules of the protocol: whitespace trimming, the test deciding
//! whether an LLM chunk counts as real content, and the joiners used
//! for transcripts and item text.
use vstd::prelude::*;
use vstd::slice::slice_index_get;
use vstd::string::{StrSliceExecFns, StringExecFns};
use crate::events::ContentPart;

verus! {

broadcast use vstd::string::group_string_axioms;

/// Characters with Unicode's White_Space property, the set `str::trim`
/// strips from both ends.
pub open spec fn is_space(c: char) -> bool {
    ||| c == '\u{0009}'
    ||| c == '\u{000A}'
    ||| c == '\u{000B}'
    ||| c == '\u{000C}'
    ||| c == '\u{000D}'
    ||| c == ' '
    ||| c == '\u{0085}'
    ||| c == '\u{00A0}'
    ||| c == '\u{1680}'
    ||| c == '\u{2000}'
    ||| c == '\u{2001}'
    ||| c == '\u{2002}'
    ||| c == '\u{2003}'
    ||| c == '\u{2004}'
    ||| c == '\u{2005}'
    ||| c == '\u{2006}'
    ||| c == '\u{2007}'
    ||| c == '\u{2008}'
    ||| c == '\u{2009}'
    ||| c == '\u{200A}'
    ||| c == '\u{2028}'
    ||| c == '\u{2029}'
    ||| c == '\u{202F}'
    ||| c == '\u{205F}'
    ||| c == '\u{3000}'
}

/// Whether `c` is whitespace in the sense of [`is_space`].
pub fn is_space_char(c: char) -> (b: bool)
    ensures
        b == is_space(c),
{
    match c {
        '\u{0009}' | '\u{000A}' | '\u{000B}' | '\u{000C}' | '\u{000D}' | ' ' | '\u{0085}'
            | '\u{00A0}' | '\u{1680}' | '\u{2000}' | '\u{2001}' | '\u{2002}' | '\u{2003}'
            | '\u{2004}' | '\u{2005}' | '\u{2006}' | '\u{2007}' | '\u{2008}' | '\u{2009}'
            | '\u{200A}' | '\u{2028}' | '\u{2029}' | '\u{202F}' | '\u{205F}' | '\u{3000}' => true,
        _ => false,
    }
}

/// `s` without its leading whitespace.
pub open spec fn trim_start_spec(s: Seq<char>) -> Seq<char>
    decreases s.len(),
{
    if s.len() == 0 {
        s
    } else if is_space(s[0]) {
        trim_start_spec(s.drop_first())
    } else {
        s
    }
}

/// `s` without its trailing whitespace.
pub open spec fn trim_end_spec(s: Seq<char>) -> Seq<char>
    decreases s.len(),
{
    if s.len() == 0 {
        s
    } else if is_space(s.last()) {
        trim_end_spec(s.drop_last())
    } else {
        s
    }
}

/// `s` without leading and trailing whitespace, as `str::trim` leaves it.
pub open spec fn trim_spec(s: Seq<char>) -> Seq<char> {
    trim_end_spec(trim_start_spec(s))
}

/// `s` trims to nothing.
pub open spec fn spec_blank(s: Seq<char>) -> bool {
    trim_spec(s).len() == 0
}

proof fn lemma_trim_start_at(s: Seq<char>, i: int)
    requires
        0 <= i <= s.len(),
        forall|k: int| 0 <= k < i ==> is_space(s[k]),
        i < s.len() ==> !is_space(s[i]),
    ensures
        trim_start_spec(s) =~= s.subrange(i, s.len() as int),
    decreases i,
{
    if i == 0 {
        assert(trim_start_spec(s) =~= s.subrange(0, s.len() as int));
    } else {
        let t = s.drop_first();
        assert(t =~= s.subrange(1, s.len() as int));
        lemma_trim_start_at(t, i - 1);
        assert(t.subrange(i - 1, t.len() as int) =~= s.subrange(i, s.len() as int));
    }
}

proof fn lemma_trim_end_at(s: Seq<char>, j: int)
    requires
        0 <= j <= s.len(),
        forall|k: int| j <= k < s.len() ==> is_space(s[k]),
        j > 0 ==> !is_space(s[j - 1]),
    ensures
        trim_end_spec(s) =~= s.subrange(0, j),
    decreases s.len() - j,
{
    if j == s.len() {
        assert(trim_end_spec(s) =~= s.subrange(0, j));
    } else {
        let t = s.drop_last();
        assert(t =~= s.subrange(0, s.len() - 1));
        lemma_trim_end_at(t, j);
        assert(t.subrange(0, j) =~= s.subrange(0, j));
    }
}

/// Bounds of `s` with surrounding whitespace removed: the trimmed text
/// is exactly `s@.subrange(r.0, r.1)`.
pub fn trim_bounds(s: &str) -> (r: (usize, usize))
    ensures
        r.0 <= r.1 <= s@.len(),
        trim_spec(s@) == s@.subrange(r.0 as int, r.1 as int),
        forall|k: int| 0 <= k < r.0 ==> is_space(s@[k]),
{
    let n = s.unicode_len();
    let mut i: usize = 0;
    while i < n && is_space_char(s.get_char(i))
        invariant
            0 <= i <= n,
            n == s@.len(),
            forall|k: int| 0 <= k < i ==> is_space(s@[k]),
        decreases n - i,
    {
        i = i + 1;
    }
    let mut j: usize = n;
    while j > i && is_space_char(s.get_char(j - 1))
        invariant
            i <= j <= n,
            n == s@.len(),
            forall|k: int| j <= k < n ==> is_space(s@[k]),
        decreases j,
    {
        j = j - 1;
    }
    proof {
        lemma_trim_start_at(s@, i as int);
        let t = s@.subrange(i as int, s@.len() as int);
        lemma_trim_end_at(t, j - i);
        assert(t.subrange(0, j - i) =~= s@.subrange(i as int, j as int));
    }
    (i, j)
}

/// `s` trims to nothing.
pub fn text_is_blank(s: &str) -> (b: bool)
    ensures
        b == spec_blank(s@),
{
    let bounds = trim_bounds(s);
    bounds.0 == bounds.1
}

/// A chunk counts as real content unless it trims to nothing, to `"()"`
/// or to `"[]"`.
pub open spec fn chunk_valid(s: Seq<char>) -> bool {
    &&& trim_spec(s).len() != 0
    &&& trim_spec(s) != seq!['(', ')']
    &&& trim_spec(s) != seq!['[', ']']
}

/// Whether `s` counts as real content in the sense of [`chunk_valid`].
pub fn chunk_has_content(s: &str) -> (b: bool)
    ensures
        b == chunk_valid(s@),
{
    let bounds = trim_bounds(s);
    let i = bounds.0;
    let j = bounds.1;
    if i == j {
        return false;
    }
    if j - i == 2 {
        let c0 = s.get_char(i);
        let c1 = s.get_char(i + 1);
        if (c0 == '(' && c1 == ')') || (c0 == '[' && c1 == ']') {
            proof {
                assert(trim_spec(s@) =~= seq![c0, c1]);
            }
            return false;
        }
        proof {
            assert(trim_spec(s@)[0] == c0 && trim_spec(s@)[1] == c1);
            assert(trim_spec(s@) != seq!['(', ')'] && trim_spec(s@) != seq!['[', ']']) by {
                assert(seq!['(', ')'][0] == '(' && seq!['(', ')'][1] == ')');
                assert(seq!['[', ']'][0] == '[' && seq!['[', ']'][1] == ']');
            }
        }
        return true;
    }
    proof {
        assert(seq!['(', ')'].len() == 2 && seq!['[', ']'].len() == 2);
    }
    true
}

/// The text a content element contributes, if any: its text for text
/// parts, its transcript for audio parts that carry one.
pub open spec fn part_text(p: ContentPart) -> Option<Seq<char>> {
    match p {
        ContentPart::Text { text } => Some(text@),
        ContentPart::InputText { text } => Some(text@),
        ContentPart::InputAudio { transcript, .. } => match transcript {
            Some(t) => Some(t@),
            None => None,
        },
        ContentPart::Audio { transcript, .. } => match transcript {
            Some(t) => Some(t@),
            None => None,
        },
    }
}

/// The contributed texts of `parts`, in order.
pub open spec fn texts_of(parts: Seq<ContentPart>) -> Seq<Seq<char>>
    decreases parts.len(),
{
    if parts.len() == 0 {
        Seq::empty()
    } else {
        let init = texts_of(parts.drop_last());
        match part_text(parts.last()) {
            Some(t) => init.push(t),
            None => init,
        }
    }
}

/// `ts` joined with `sep` between consecutive elements.
pub open spec fn join_with(ts: Seq<Seq<char>>, sep: Seq<char>) -> Seq<char>
    decreases ts.len(),
{
    if ts.len() == 0 {
        Seq::empty()
    } else if ts.len() == 1 {
        ts[0]
    } else {
        join_with(ts.drop_last(), sep) + sep + ts.last()
    }
}

/// All texts of `parts` joined with single spaces.
pub open spec fn joined_text(parts: Seq<ContentPart>) -> Seq<char> {
    join_with(texts_of(parts), seq![' '])
}

proof fn lemma_texts_of_snoc(parts: Seq<ContentPart>, i: int)
    requires
        0 <= i < parts.len(),
    ensures
        texts_of(parts.subrange(0, i + 1)) == match part_text(parts[i]) {
            Some(t) => texts_of(parts.subrange(0, i)).push(t),
            None => texts_of(parts.subrange(0, i)),
        },
{
    let sub = parts.subrange(0, i + 1);
    assert(sub.drop_last() =~= parts.subrange(0, i));
    assert(sub.last() == parts[i]);
}

proof fn lemma_join_with_snoc(ts: Seq<Seq<char>>, t: Seq<char>, sep: Seq<char>)
    ensures
        join_with(ts.push(t), sep) == if ts.len() == 0 {
            t
        } else {
            join_with(ts, sep) + sep + t
        },
{
    let p = ts.push(t);
    assert(p.drop_last() =~= ts);
    assert(p.last() == t);
    if ts.len() == 0 {
        assert(p.len() == 1 && p[0] == t);
    }
}

/// The texts of `content`'s parts joined with single spaces, in order:
/// the text of every text part and the transcript of every audio part
/// that has one.
pub fn extract_text_from_content(content: &[ContentPart]) -> (r: String)
    ensures
        r@ == joined_text(content@),
{
    let ghost sep: Seq<char> = seq![' '];
    let mut acc = String::new();
    let mut started = false;
    let mut idx: usize = 0;
    while idx < content.len()
        invariant
            sep == seq![' '],
            0 <= idx <= content@.len(),
            acc@ == join_with(texts_of(content@.subrange(0, idx as int)), sep),
            started == (texts_of(content@.subrange(0, idx as int)).len() > 0),
        decreases content@.len() - idx,
    {
        let ghost prefix = content@.subrange(0, idx as int);
        let p = slice_index_get(content, idx);
        let text_ref: Option<&String> = match p {
            ContentPart::Text { text } => Some(text),
            ContentPart::InputText { text } => Some(text),
            ContentPart::InputAudio { transcript, .. } => transcript.as_ref(),
            ContentPart::Audio { transcript, .. } => transcript.as_ref(),
        };
        proof {
            lemma_texts_of_snoc(content@, idx as int);
        }
        match text_ref {
            Some(t) => {
                proof {
                    lemma_join_with_snoc(texts_of(prefix), t@, sep);
                    reveal_strlit(" ");
                    assert(" "@ =~= sep);
                }
                if started {
                    acc.append(" ");
                }
                acc.append(t.as_str());
                started = true;
                proof {
                    if texts_of(prefix).len() == 0 {
                        assert(Seq::<char>::empty() + t@ =~= t@);
                    }
                }
            },
            None => {},
        }
        idx = idx + 1;
    }
    proof {
        assert(content@.subrange(0, content@.len() as int) =~= content@);
    }
    acc
}

/// The views of a sequence of strings, in order.
pub open spec fn views_of(ss: Seq<String>) -> Seq<Seq<char>>
    decreases ss.len(),
{
    if ss.len() == 0 {
        Seq::empty()
    } else {
        views_of(ss.drop_last()).push(ss.last()@)
    }
}

proof fn lemma_views_of_snoc(ss: Seq<String>, i: int)
    requires
        0 <= i < ss.len(),
    ensures
        views_of(ss.subrange(0, i + 1)) == views_of(ss.subrange(0, i)).push(ss[i]@),
{
    let sub = ss.subrange(0, i + 1);
    assert(sub.drop_last() =~= ss.subrange(0, i));
    assert(sub.last() == ss[i]);
}

/// `segments` joined with a newline between consecutive elements, the
/// form a commit's transcript takes.
pub fn join_segments(segments: &Vec<String>) -> (r: String)
    ensures
        r@ == join_with(views_of(segments@), seq!['\n']),
{
    let ghost sep: Seq<char> = seq!['\n'];
    let mut acc = String::new();
    let mut idx: usize = 0;
    while idx < segments.len()
        invariant
            sep == seq!['\n'],
            0 <= idx <= segments@.len(),
            acc@ == join_with(views_of(segments@.subrange(0, idx as int)), sep),
        decreases segments@.len() - idx,
    {
        let ghost prefix = segments@.subrange(0, idx as int);
        proof {
            lemma_views_of_len(prefix);
            lemma_views_of_snoc(segments@, idx as int);
            lemma_join_with_snoc(views_of(prefix), segments@[idx as int]@, sep);
            reveal_strlit("\n");
            assert("\n"@ =~= sep);
        }
        if idx > 0 {
            acc.append("\n");
        }
        let seg: &String = &segments[idx];
        acc.append(seg.as_str());
        proof {
            if views_of(prefix).len() == 0 {
                assert(Seq::<char>::empty() + seg@ =~= seg@);
            }
        }
        idx = idx + 1;
    }
    proof {
        assert(segments@.subrange(0, segments@.len() as int) =~= segments@);
    }
    acc
}

proof fn lemma_views_of_len(ss: Seq<String>)
    ensures
        views_of(ss).len() == ss.len(),
    decreases ss.len(),
{
    if ss.len() > 0 {
        lemma_views_of_len(ss.drop_last());
    }
}

} // verus!
