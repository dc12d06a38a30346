//! Strings as the rest of the library reads them: character by character,
//! compared by content, and cut at every `-`.
use vstd::prelude::*;
use vstd::string::*;
use vstd::utf8::*;

verus! {

/// Whether no character of `s` is the separator `-`.
pub open spec fn dash_free(s: Seq<char>) -> bool {
    forall|i: int| 0 <= i < s.len() ==> s[i] != '-'
}

/// Whether every segment of `segments` is free of `-`.
pub open spec fn all_dash_free(segments: Seq<Seq<char>>) -> bool {
    forall|i: int| 0 <= i < segments.len() ==> dash_free(#[trigger] segments[i])
}

/// The segments of `s`: what stands between its separators, in order. A
/// string of `k` separators has `k + 1` segments, some of them possibly empty.
pub open spec fn split(s: Seq<char>) -> Seq<Seq<char>>
    decreases s.len(),
{
    if s.len() == 0 {
        seq![Seq::empty()]
    } else {
        let before = split(s.drop_last());
        if s.last() == '-' {
            before.push(Seq::empty())
        } else {
            before.drop_last().push(before.last().push(s.last()))
        }
    }
}

/// The string that writes `segments` one after another with a `-` between
/// each two neighbours.
pub open spec fn join(segments: Seq<Seq<char>>) -> Seq<char>
    decreases segments.len(),
{
    if segments.len() == 0 {
        Seq::empty()
    } else if segments.len() == 1 {
        segments[0]
    } else {
        join(segments.drop_last()) + seq!['-'] + segments.last()
    }
}

/// The contents of a list of string slices.
pub open spec fn segment_views(segments: Seq<&str>) -> Seq<Seq<char>> {
    Seq::new(segments.len(), |i: int| segments[i]@)
}

/// Every string has at least one segment, and no segment holds a separator.
pub proof fn lemma_split_shape(s: Seq<char>)
    ensures
        split(s).len() >= 1,
        all_dash_free(split(s)),
    decreases s.len(),
{
    if s.len() > 0 {
        lemma_split_shape(s.drop_last());
    }
}

/// Joining the segments of a string gives the string back.
pub proof fn lemma_join_split(s: Seq<char>)
    ensures
        join(split(s)) == s,
    decreases s.len(),
{
    if s.len() > 0 {
        let init = s.drop_last();
        let before = split(init);
        lemma_split_shape(init);
        lemma_join_split(init);
        if s.last() == '-' {
            let after = before.push(Seq::empty());
            assert(after.drop_last() =~= before);
            assert(after.last() =~= Seq::<char>::empty());
            assert(init + seq!['-'] + Seq::<char>::empty() =~= s);
            assert(join(after) =~= s);
        } else {
            let grown = before.last().push(s.last());
            let after = before.drop_last().push(grown);
            assert(after.drop_last() =~= before.drop_last());
            if before.len() == 1 {
                assert(after.len() == 1);
                assert(join(before) == before[0]);
                assert(join(after) == grown);
                assert(join(after) =~= s);
            } else {
                let stem = join(before.drop_last()) + seq!['-'];
                assert(join(before) == stem + before.last());
                assert(after.last() == grown);
                assert(join(after) == stem + grown);
                assert(stem + grown =~= (stem + before.last()).push(s.last()));
                assert(join(after) =~= s);
            }
        }
    } else {
        assert(join(split(s)) =~= s);
    }
}

/// Appending text without a separator to a string grows its last segment.
pub proof fn lemma_split_append(s: Seq<char>, tail: Seq<char>)
    requires
        dash_free(tail),
    ensures
        split(s).len() >= 1,
        split(s + tail) == split(s).drop_last().push(split(s).last() + tail),
    decreases tail.len(),
{
    lemma_split_shape(s);
    if tail.len() == 0 {
        assert(s + tail =~= s);
        assert(split(s).last() + tail =~= split(s).last());
        assert(split(s).drop_last().push(split(s).last()) =~= split(s));
    } else {
        let shorter = tail.drop_last();
        lemma_split_append(s, shorter);
        assert((s + tail).drop_last() =~= s + shorter);
        assert((s + tail).last() == tail.last());
        assert(split(s).last() + tail =~= (split(s).last() + shorter).push(tail.last()));
        assert(split(s + tail) =~= split(s).drop_last().push(split(s).last() + tail));
    }
}

/// Cutting a joined string gives the segments back, provided there is at
/// least one and none of them holds a separator.
pub proof fn lemma_split_join(segments: Seq<Seq<char>>)
    requires
        segments.len() >= 1,
        all_dash_free(segments),
    ensures
        split(join(segments)) == segments,
    decreases segments.len(),
{
    let empty = Seq::<char>::empty();
    if segments.len() == 1 {
        lemma_split_append(empty, segments[0]);
        assert(empty + segments[0] =~= segments[0]);
        assert(split(empty) =~= seq![empty]);
        assert(split(join(segments)) =~= segments);
    } else {
        let init = segments.drop_last();
        assert forall|i: int| 0 <= i < init.len() implies dash_free(#[trigger] init[i]) by {
            assert(init[i] == segments[i]);
        }
        lemma_split_join(init);
        let cut = join(init) + seq!['-'];
        assert(cut.drop_last() =~= join(init));
        assert(split(cut) == init.push(empty));
        lemma_split_append(cut, segments.last());
        assert(empty + segments.last() =~= segments.last());
        assert(split(join(segments)) =~= segments);
    }
}

/// A string laid out for reading by position. Text that is all ASCII is
/// read in place; other text is read by walking its characters from the
/// start, which takes the longer the further in a position lies.
pub struct Scan<'a> {
    text: &'a str,
    ascii: bool,
    len: usize,
}

impl<'a> Scan<'a> {
    /// Whether the recorded length and flag describe the text.
    pub closed spec fn wf(&self) -> bool {
        &&& self.len == self.text@.len()
        &&& self.ascii ==> is_ascii(self.text)
    }

    /// The characters under the scan.
    pub closed spec fn chars(&self) -> Seq<char> {
        self.text@
    }

    /// Lays `text` out for reading.
    pub fn new(text: &'a str) -> (scan: Self)
        ensures
            scan.wf(),
            scan.chars() == text@,
    {
        let ascii = text.is_ascii();
        let len = if ascii {
            proof {
                is_ascii_spec_bytes(text);
            }
            text.as_bytes().len()
        } else {
            text.unicode_len()
        };
        Scan { text, ascii, len }
    }

    /// The number of characters.
    pub fn len(&self) -> (n: usize)
        requires
            self.wf(),
        ensures
            n == self.chars().len(),
    {
        self.len
    }

    /// The character at `index`.
    pub fn at(&self, index: usize) -> (c: char)
        requires
            self.wf(),
            index < self.chars().len(),
        ensures
            c == self.chars()[index as int],
    {
        if self.ascii {
            let byte = self.text.get_ascii(index);
            assert(self.text@[index as int] <= '\u{7f}');
            byte as char
        } else {
            self.text.get_char(index)
        }
    }

    /// The characters from `from` up to `to`, as a slice of the text.
    pub fn slice(&self, from: usize, to: usize) -> (part: &'a str)
        requires
            self.wf(),
            from <= to <= self.chars().len(),
        ensures
            part@ == self.chars().subrange(from as int, to as int),
    {
        if self.ascii {
            self.text.substring_ascii(from, to)
        } else {
            self.text.substring_char(from, to)
        }
    }
}

/// Whether two strings hold the same characters.
pub fn str_eq(a: &str, b: &str) -> (same: bool)
    ensures
        same == (a@ == b@),
{
    let left = a.as_bytes();
    let right = b.as_bytes();
    if left.len() != right.len() {
        return false;
    }
    let n = left.len();
    let mut i: usize = 0;
    while i < n
        invariant
            n == left@.len(),
            n == right@.len(),
            i <= n,
            left@ == a.spec_bytes(),
            right@ == b.spec_bytes(),
            left@.take(i as int) == right@.take(i as int),
        decreases n - i,
    {
        if left[i] != right[i] {
            assert(left@[i as int] != right@[i as int]);
            assert(a@ != b@) by {
                if a@ == b@ {
                    assert(a.spec_bytes() == b.spec_bytes());
                    assert(left@[i as int] == right@[i as int]);
                }
            }
            return false;
        }
        i += 1;
        assert(left@.take(i as int) =~= left@.take(i - 1).push(left@[i - 1]));
        assert(right@.take(i as int) =~= right@.take(i - 1).push(right@[i - 1]));
    }
    assert(left@ =~= left@.take(n as int));
    assert(right@ =~= right@.take(n as int));
    proof {
        encode_utf8_decode_utf8(a@);
        encode_utf8_decode_utf8(b@);
    }
    true
}

/// Cuts `text` at every `-` and returns the segments in order, each a slice
/// of `text`: no segment holds a `-`, and joined again they are `text`.
pub fn split_dashes<'a>(text: &'a str) -> (segments: Vec<&'a str>)
    ensures
        segment_views(segments@) == split(text@),
        segments@.len() >= 1,
        all_dash_free(segment_views(segments@)),
        join(segment_views(segments@)) == text@,
{
    proof {
        lemma_split_shape(text@);
        lemma_join_split(text@);
    }
    let scan = Scan::new(text);
    let n = scan.len();
    let mut segments: Vec<&'a str> = Vec::new();
    let mut start: usize = 0;
    let mut i: usize = 0;
    assert(text@.take(0) =~= Seq::<char>::empty());
    assert(split(text@.take(0)) =~= segment_views(segments@).push(text@.subrange(0, 0)));
    while i < n
        invariant
            scan.wf(),
            scan.chars() == text@,
            n == text@.len(),
            start <= i <= n,
            split(text@.take(i as int)) == segment_views(segments@).push(
                text@.subrange(start as int, i as int),
            ),
        decreases n - i,
    {
        let ghost before = segment_views(segments@);
        let ghost head = text@.take(i as int);
        let ghost grown = text@.take(i + 1);
        assert(grown.drop_last() =~= head);
        assert(grown.last() == text@[i as int]);
        if scan.at(i) == '-' {
            let part = scan.slice(start, i);
            segments.push(part);
            assert(segment_views(segments@) =~= before.push(part@));
            start = i + 1;
            assert(text@.subrange(start as int, i + 1) =~= Seq::<char>::empty());
        } else {
            assert(before.push(text@.subrange(start as int, i as int)).drop_last() =~= before);
            assert(text@.subrange(start as int, i + 1) =~= text@.subrange(start as int, i as int).push(
                text@[i as int],
            ));
        }
        i += 1;
    }
    let ghost before = segment_views(segments@);
    assert(text@.take(n as int) =~= text@);
    let part = scan.slice(start, n);
    segments.push(part);
    assert(segment_views(segments@) =~= before.push(part@));
    segments
}

} // verus!
