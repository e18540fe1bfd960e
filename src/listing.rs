use vstd::prelude::*;

use crate::outcome::{decode_lossy, lossy_text};
use vstd::string::*;

use crate::text::{has_prefix, joined};

verus! {

/// `line` as a one-element sequence, or nothing where it is empty.
pub open spec fn kept(line: Seq<u8>) -> Seq<Seq<u8>> {
    if line.len() == 0 {
        Seq::empty()
    } else {
        seq![line]
    }
}

/// `line` without the carriage return that ends it, if any.
pub open spec fn strip_cr(line: Seq<u8>) -> Seq<u8> {
    if line.len() > 0 && line.last() == 13u8 {
        line.drop_last()
    } else {
        line
    }
}

/// The non-empty lines of `b`, after a partial line `cur`: a line ends at a line
/// feed, which drops a carriage return before it, or at the end of the bytes.
pub open spec fn lines_from(b: Seq<u8>, cur: Seq<u8>) -> Seq<Seq<u8>>
    decreases b.len(),
{
    if b.len() == 0 {
        kept(cur)
    } else if b[0] == 10u8 {
        kept(strip_cr(cur)) + lines_from(b.drop_first(), Seq::empty())
    } else {
        lines_from(b.drop_first(), cur.push(b[0]))
    }
}

/// The non-empty lines of a listing.
pub open spec fn listing_lines(b: Seq<u8>) -> Seq<Seq<u8>> {
    lines_from(b, Seq::empty())
}

/// A file name as shown: one under the home directory starts with `~` instead.
pub open spec fn home_display(home: Seq<char>, name: Seq<char>) -> Seq<char> {
    if home.is_prefix_of(name) {
        "~"@ + name.subrange(home.len() as int, name.len() as int)
    } else {
        name
    }
}

/// The command names that a listing holds.
pub open spec fn command_names(b: Seq<u8>) -> Seq<Seq<char>> {
    listing_lines(b).map_values(|l: Seq<u8>| lossy_text(l))
}

/// The file names that a listing holds, shown relative to `home` where they lie under it.
pub open spec fn file_names(b: Seq<u8>, home: Seq<char>) -> Seq<Seq<char>> {
    listing_lines(b).map_values(|l: Seq<u8>| home_display(home, lossy_text(l)))
}

/// The directory names that a listing holds, each followed by a separator.
pub open spec fn directory_names(b: Seq<u8>) -> Seq<Seq<char>> {
    listing_lines(b).map_values(|l: Seq<u8>| lossy_text(l) + "/"@)
}

/// The views of a vector of strings.
pub open spec fn views(v: Seq<String>) -> Seq<Seq<char>> {
    v.map_values(|s: String| s@)
}

/// Every line that `lines_from` gives holds at least one byte.
proof fn lemma_lines_non_empty(b: Seq<u8>, cur: Seq<u8>)
    ensures
        forall|i: int|
            0 <= i < lines_from(b, cur).len() ==> (#[trigger] lines_from(b, cur)[i]).len() > 0,
    decreases b.len(),
{
    if b.len() == 0 {
        assert(lines_from(b, cur) == kept(cur));
    } else if b[0] == 10u8 {
        lemma_lines_non_empty(b.drop_first(), Seq::empty());
        let k = kept(strip_cr(cur));
        let rest = lines_from(b.drop_first(), Seq::empty());
        assert(lines_from(b, cur) == k + rest);
        assert forall|i: int| 0 <= i < (k + rest).len() implies (#[trigger] (k + rest)[i]).len()
            > 0 by {
            if i >= k.len() {
                assert((k + rest)[i] == rest[i - k.len()]);
            }
        };
    } else {
        assert(lines_from(b, cur) == lines_from(b.drop_first(), cur.push(b[0])));
        lemma_lines_non_empty(b.drop_first(), cur.push(b[0]));
    }
}

/// The non-empty lines of a listing.
pub fn split_lines(b: &[u8]) -> (r: Vec<Vec<u8>>)
    ensures
        r@.map_values(|l: Vec<u8>| l@) == listing_lines(b@),
{
    let n = b.len();
    let mut out: Vec<Vec<u8>> = Vec::new();
    let mut cur: Vec<u8> = Vec::new();
    let mut i: usize = 0;
    assert(b@.subrange(0, n as int) =~= b@);
    while i < n
        invariant
            n == b@.len(),
            i <= n,
            out@.map_values(|l: Vec<u8>| l@) + lines_from(b@.subrange(i as int, n as int), cur@)
                == listing_lines(b@),
        decreases n - i,
    {
        let rest = Ghost(b@.subrange(i as int, n as int));
        assert(rest@.drop_first() =~= b@.subrange(i + 1, n as int));
        let c = b[i];
        assert(rest@[0] == c);
        let ghost c0 = cur@;
        if c == 10u8 {
            let len = cur.len();
            if len > 0 && cur[len - 1] == 13u8 {
                cur.pop();
                assert(cur@ =~= strip_cr(c0));
            }
            assert(cur@ == strip_cr(c0));
            let ghost before = out@.map_values(|l: Vec<u8>| l@);
            assert(lines_from(rest@, c0) == kept(strip_cr(c0)) + lines_from(
                b@.subrange(i + 1, n as int),
                Seq::empty(),
            ));
            if cur.len() > 0 {
                out.push(cur);
                assert(out@.map_values(|l: Vec<u8>| l@) =~= before + kept(strip_cr(c0)));
            } else {
                assert(before + kept(strip_cr(c0)) =~= before);
            }
            assert(out@.map_values(|l: Vec<u8>| l@) + lines_from(
                b@.subrange(i + 1, n as int),
                Seq::empty(),
            ) =~= before + lines_from(rest@, c0));
            cur = Vec::new();
            assert(cur@ =~= Seq::<u8>::empty());
        } else {
            cur.push(c);
            assert(cur@ == c0.push(c));
        }
        i = i + 1;
    }
    assert(b@.subrange(n as int, n as int) =~= Seq::<u8>::empty());
    let ghost before = out@.map_values(|l: Vec<u8>| l@);
    if cur.len() > 0 {
        out.push(cur);
        assert(out@.map_values(|l: Vec<u8>| l@) =~= before + kept(cur@));
    } else {
        assert(before + kept(cur@) =~= before);
    }
    out
}

/// Which names a listing holds, and so how each line is shown.
#[derive(Clone, Copy, Debug, PartialEq, Eq, Structural)]
pub enum ListingForm {
    Commands,
    Files,
    Directories,
}

/// The suggestions that a listing of the given form holds.
pub open spec fn names_of(form: ListingForm, b: Seq<u8>, home: Seq<char>) -> Seq<Seq<char>> {
    match form {
        ListingForm::Commands => command_names(b),
        ListingForm::Files => file_names(b, home),
        ListingForm::Directories => directory_names(b),
    }
}

/// How one line of a listing of the given form is shown.
pub open spec fn shown(form: ListingForm, l: Seq<u8>, home: Seq<char>) -> Seq<char> {
    match form {
        ListingForm::Commands => lossy_text(l),
        ListingForm::Files => home_display(home, lossy_text(l)),
        ListingForm::Directories => lossy_text(l) + "/"@,
    }
}

fn show_line(form: &ListingForm, l: &[u8], home: &str) -> (r: String)
    requires
        l@.len() > 0,
    ensures
        r@ == shown(*form, l@, home@),
        r@.len() > 0,
{
    proof {
        reveal_strlit("~");
        reveal_strlit("/");
    }
    let t = decode_lossy(l);
    match form {
        ListingForm::Commands => t,
        ListingForm::Files => {
            if has_prefix(t.as_str(), home) {
                let rest = t.as_str().substring_char(home.unicode_len(), t.as_str().unicode_len());
                joined("~", rest)
            } else {
                t
            }
        },
        ListingForm::Directories => joined(t.as_str(), "/"),
    }
}

/// The suggestions that a listing holds: its non-empty lines, decoded and shown
/// as the form asks. None of them is empty.
pub fn listing_names(form: ListingForm, b: &[u8], home: &str) -> (r: Vec<String>)
    ensures
        views(r@) == names_of(form, b@, home@),
        forall|i: int| 0 <= i < r@.len() ==> (#[trigger] r@[i])@.len() > 0,
{
    let lines = split_lines(b);
    let ghost ls = lines@.map_values(|l: Vec<u8>| l@);
    proof {
        lemma_lines_non_empty(b@, Seq::empty());
    }
    let mut out: Vec<String> = Vec::new();
    let mut i: usize = 0;
    while i < lines.len()
        invariant
            i <= lines@.len(),
            ls == lines@.map_values(|l: Vec<u8>| l@),
            views(out@) =~= ls.take(i as int).map_values(|l: Seq<u8>| shown(form, l, home@)),
            ls == listing_lines(b@),
            forall|j: int| 0 <= j < ls.len() ==> (#[trigger] ls[j]).len() > 0,
            forall|j: int| 0 <= j < out@.len() ==> (#[trigger] out@[j])@.len() > 0,
        decreases lines@.len() - i,
    {
        assert(ls[i as int] == lines@[i as int]@);
        let s = show_line(&form, lines[i].as_slice(), home);
        let ghost before = out@;
        out.push(s);
        assert(forall|j: int| 0 <= j < before.len() ==> out@[j] == before[j]);
        assert(out@ =~= before.push(s));
        assert(views(out@) =~= views(before).push(s@));
        assert(ls.take(i + 1) =~= ls.take(i as int).push(ls[i as int]));
        i = i + 1;
    }
    assert(ls.take(i as int) =~= ls);
    assert(names_of(form, b@, home@) =~= ls.map_values(|l: Seq<u8>| shown(form, l, home@)));
    out
}

} // verus!
