//! Lyrics in the LRCLIB format: plain text, one line per row, or synced rows
//! of the form `[mm:ss.xx]text`.
//!
//! The library splits and reassembles the text; the timestamps' numbers are
//! read from the parts that `parse_synced_line` hands back.
use vstd::prelude::*;
use vstd::string::*;
use crate::text::{split_on, join_with, find_char, split_char, views};

verus! {

/// Why a synced row could not be read.
#[derive(Debug, Clone, Copy, PartialEq, Eq, Structural)]
pub enum LyricsParseError {
    /// The row has no closing `]`.
    TimestampNotFoundError,
    /// The timestamp is not of the form `minutes:seconds`, or a number in it
    /// does not parse.
    TimestampFormatError,
}

/// Splitting on a separator and joining back with it gives the text back.
pub proof fn lemma_join_split(s: Seq<char>, sep: char)
    ensures
        split_on(s, sep).len() >= 1,
        join_with(split_on(s, sep), seq![sep]) == s,
    decreases s.len(),
{
    if s.len() > 0 {
        let prev = split_on(s.drop_last(), sep);
        lemma_join_split(s.drop_last(), sep);
        if s.last() == sep {
            let next = prev.push(Seq::empty());
            assert(next.drop_last() =~= prev);
            assert(join_with(next, seq![sep]) =~= s);
        } else {
            let next = prev.update(prev.len() - 1, prev.last().push(s.last()));
            if prev.len() == 1 {
                assert(join_with(next, seq![sep]) =~= s);
            } else {
                assert(next.drop_last() =~= prev.drop_last());
                let head = join_with(prev.drop_last(), seq![sep]);
                assert(join_with(prev, seq![sep]) == head + seq![sep] + prev.last());
                assert(next.last() == prev.last().push(s.last()));
                assert(join_with(next, seq![sep]) == head + seq![sep] + prev.last().push(s.last()));
                assert(s =~= s.drop_last().push(s.last()));
                assert(join_with(next, seq![sep]) =~= s);
            }
        }
    } else {
        assert(join_with(split_on(s, sep), seq![sep]) =~= s);
    }
}

/// The rows of a text: the pieces between its newlines.
pub fn split_lrclib_lines(text: &str) -> (res: Vec<String>)
    ensures
        views(res@) == split_on(text@, '\n'),
{
    split_char(text, '\n')
}

/// The raw parts of a synced row `[minutes:seconds]text`.
#[derive(Debug)]
pub struct SyncedLine {
    pub minutes: String,
    pub seconds: String,
    pub text: String,
}

/// The position of the first `]` in a row.
pub open spec fn first_close(l: Seq<char>) -> int {
    choose|i: int| 0 <= i < l.len() && l[i] == ']' && forall|j: int| 0 <= j < i ==> l[j] != ']'
}

/// The row has a `]`.
pub open spec fn has_close(l: Seq<char>) -> bool {
    exists|i: int| 0 <= i < l.len() && l[i] == ']'
}

/// Reading the row does not cut a character in two or run backwards: when the
/// row has a `]`, it is not the first character, and the first character is
/// a single byte.
pub open spec fn synced_line_readable(l: Seq<char>) -> bool {
    has_close(l) ==> first_close(l) >= 1 && (l[0] as u32) < 128
}

/// What a synced row is read as: the timestamp between the first character
/// and the first `]` must split on `:` into exactly two parts; the text is
/// what follows the `]`.
pub open spec fn synced_parts(l: Seq<char>) -> Result<
    (Seq<char>, Seq<char>, Seq<char>),
    LyricsParseError,
> {
    if !has_close(l) {
        Err(LyricsParseError::TimestampNotFoundError)
    } else {
        let i = first_close(l);
        let parts = split_on(l.subrange(1, i), ':');
        if parts.len() != 2 {
            Err(LyricsParseError::TimestampFormatError)
        } else {
            Ok((parts[0], parts[1], l.subrange(i + 1, l.len() as int)))
        }
    }
}

/// Splits a synced row into its timestamp's two parts and its text.
pub fn parse_synced_line(line: &str) -> (res: Result<SyncedLine, LyricsParseError>)
    requires
        synced_line_readable(line@),
    ensures
        match res {
            Ok(parts) => synced_parts(line@) == Ok::<
                (Seq<char>, Seq<char>, Seq<char>),
                LyricsParseError,
            >((parts.minutes@, parts.seconds@, parts.text@)),
            Err(e) => synced_parts(line@) == Err::<
                (Seq<char>, Seq<char>, Seq<char>),
                LyricsParseError,
            >(e),
        },
{
    let n = line.unicode_len();
    match find_char(line, ']') {
        None => {
            Err(LyricsParseError::TimestampNotFoundError)
        },
        Some(i) => {
            proof {
                assert(has_close(line@));
                let f = first_close(line@);
                if f < i {
                    assert(line@[f] != ']');
                }
                if i < f {
                    assert(line@[i as int] != ']');
                }
                assert(f == i);
            }
            let stamp = line.substring_char(1, i);
            let parts = split_char(stamp, ':');
            if parts.len() != 2 {
                Err(LyricsParseError::TimestampFormatError)
            } else {
                let text = line.substring_char(i + 1, n).to_owned();
                let minutes = parts[0].clone();
                let seconds = parts[1].clone();
                proof {
                    assert(views(parts@)[0] == parts@[0]@);
                    assert(views(parts@)[1] == parts@[1]@);
                }
                Ok(SyncedLine { minutes, seconds, text })
            }
        },
    }
}

/// Plain or synced lyrics, as the text of each row.
#[derive(Debug)]
pub struct Lyrics {
    pub lines: Vec<String>,
    pub synced: bool,
}

impl Lyrics {
    /// Plain lyrics: each row of the text is a line; this never fails.
    pub fn try_from_plain_lrclib_str(lrclib: &str) -> (res: Result<Lyrics, LyricsParseError>)
        ensures
            res is Ok,
            views(res->Ok_0.lines@) == split_on(lrclib@, '\n'),
            !res->Ok_0.synced,
    {
        Ok(Lyrics { lines: split_lrclib_lines(lrclib), synced: false })
    }

    /// The lines joined by newlines.
    pub fn to_plain_string(&self) -> (res: String)
        ensures
            res@ == join_with(views(self.lines@), seq!['\n']),
    {
        let mut out = String::new();
        let mut i: usize = 0;
        proof {
            reveal_strlit("\n");
        }
        while i < self.lines.len()
            invariant
                i <= self.lines.len(),
                out@ == join_with(views(self.lines@.subrange(0, i as int)), seq!['\n']),
                "\n"@ == seq!['\n'],
            decreases self.lines.len() - i,
        {
            let ghost prefix = views(self.lines@.subrange(0, i as int));
            if i > 0 {
                out.append("\n");
            }
            out.append(self.lines[i].as_str());
            proof {
                let next = views(self.lines@.subrange(0, i + 1));
                assert(next.drop_last() =~= prefix);
                assert(next.last() == self.lines@[i as int]@);
                if i == 0 {
                    assert(out@ =~= join_with(next, seq!['\n']));
                } else {
                    assert(out@ =~= join_with(next, seq!['\n']));
                }
            }
            i = i + 1;
        }
        proof {
            assert(self.lines@.subrange(0, self.lines.len() as int) =~= self.lines@);
        }
        out
    }

    /// The text of each line.
    pub fn to_plain_lines(&self) -> (res: Vec<&str>)
        ensures
            res.len() == self.lines.len(),
            forall|k: int| 0 <= k < res.len() ==> #[trigger] res[k]@ == self.lines@[k]@,
    {
        let mut out: Vec<&str> = Vec::new();
        let mut i: usize = 0;
        while i < self.lines.len()
            invariant
                i <= self.lines.len(),
                out.len() == i,
                forall|k: int| 0 <= k < i ==> #[trigger] out[k]@ == self.lines@[k]@,
            decreases self.lines.len() - i,
        {
            out.push(self.lines[i].as_str());
            i = i + 1;
        }
        out
    }

    /// The number of lines.
    pub fn n_lines(&self) -> (res: usize)
        ensures
            res == self.lines.len(),
    {
        self.lines.len()
    }
}

/// Splitting a text that ends with a piece free of the separator extends the
/// last piece by it.
pub proof fn lemma_split_append_plain(s: Seq<char>, b: Seq<char>, sep: char)
    requires
        forall|i: int| 0 <= i < b.len() ==> b[i] != sep,
    ensures
        split_on(s, sep).len() >= 1,
        split_on(s + b, sep) == split_on(s, sep).update(
            split_on(s, sep).len() - 1,
            split_on(s, sep).last() + b,
        ),
    decreases b.len(),
{
    lemma_join_split(s, sep);
    if b.len() == 0 {
        assert(s + b =~= s);
        assert(split_on(s, sep).last() + b =~= split_on(s, sep).last());
        assert(split_on(s, sep).update(split_on(s, sep).len() - 1, split_on(s, sep).last())
            =~= split_on(s, sep));
    } else {
        let b0 = b.drop_last();
        lemma_split_append_plain(s, b0, sep);
        assert((s + b).drop_last() =~= s + b0);
        assert((s + b).last() == b.last());
        let p = split_on(s, sep);
        let q = split_on(s + b0, sep);
        assert(q.last() == p.last() + b0);
        assert(q.len() == p.len());
        assert((p.last() + b0).push(b.last()) =~= p.last() + b);
        assert(q.last().push(b.last()) =~= p.last() + b);
        assert(q.update(q.len() - 1, q.last().push(b.last())) =~= p.update(
            p.len() - 1,
            p.last() + b,
        ));
    }
}

/// Joining lines free of the separator and splitting the text again gives
/// the same lines.
pub proof fn lemma_split_join(lines: Seq<Seq<char>>, sep: char)
    requires
        lines.len() >= 1,
        forall|k: int, i: int|
            0 <= k < lines.len() && 0 <= i < lines[k].len() ==> #[trigger] lines[k][i] != sep,
    ensures
        split_on(join_with(lines, seq![sep]), sep) == lines,
    decreases lines.len(),
{
    let last = lines.last();
    assert forall|i: int| 0 <= i < last.len() implies last[i] != sep by {
        assert(lines[lines.len() - 1][i] != sep);
    }
    if lines.len() == 1 {
        lemma_split_append_plain(Seq::empty(), last, sep);
        assert(Seq::<char>::empty() + last =~= last);
        assert(split_on(Seq::<char>::empty(), sep) =~= seq![Seq::<char>::empty()]);
        assert(Seq::<char>::empty() + last =~= last);
        assert(seq![Seq::<char>::empty()].update(0, Seq::<char>::empty() + last) =~= lines);
    } else {
        let init = lines.drop_last();
        assert forall|k: int, i: int| 0 <= k < init.len() && 0 <= i < init[k].len() implies #[trigger] init[k][i] != sep by {
            assert(init[k] == lines[k]);
        }
        lemma_split_join(init, sep);
        let head = join_with(init, seq![sep]);
        let mid = head + seq![sep];
        assert(mid.drop_last() =~= head);
        assert(mid.last() == sep);
        assert(split_on(mid, sep) == split_on(head, sep).push(Seq::empty()));
        lemma_split_append_plain(mid, last, sep);
        assert(join_with(lines, seq![sep]) =~= mid + last);
        assert(Seq::<char>::empty() + last =~= last);
        assert(init.push(Seq::empty()).update(init.len() as int, Seq::<char>::empty() + last)
            =~= lines);
    }
}

/// Plain lyrics written out and read back give the same lines, when there
/// is at least one line and no line holds a newline.
pub proof fn lemma_plain_lines_roundtrip(lines: Seq<String>)
    requires
        lines.len() >= 1,
        forall|k: int, i: int|
            0 <= k < lines.len() && 0 <= i < lines[k]@.len() ==> #[trigger] lines[k]@[i] != '\n',
    ensures
        split_on(join_with(views(lines), seq!['\n']), '\n') == views(lines),
{
    assert forall|k: int, i: int|
        0 <= k < views(lines).len() && 0 <= i < views(lines)[k].len() implies #[trigger] views(
        lines,
    )[k][i] != '\n' by {
        assert(views(lines)[k] == lines[k]@);
    }
    lemma_split_join(views(lines), '\n');
}

/// Reading plain lyrics and writing them back out gives the text back.
pub proof fn lemma_plain_roundtrip(text: Seq<char>, lines: Seq<String>)
    requires
        views(lines) == split_on(text, '\n'),
    ensures
        join_with(views(lines), seq!['\n']) == text,
{
    lemma_join_split(text, '\n');
}

} // verus!
