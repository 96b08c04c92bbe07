use vstd::prelude::*;

verus! {

/// The marker whose presence in the config text means a selection was made.
pub open spec fn audio_marker() -> Seq<char> {
    "Audio"@
}

/// The separator between the marker and the recorded path.
pub open spec fn separator() -> Seq<char> {
    ": "@
}

/// Everything the config file holds before the recorded path.
pub open spec fn config_prefix() -> Seq<char> {
    "Audio: "@
}

/// `needle` occurs in `hay` starting at position `at`.
pub open spec fn match_at(hay: Seq<char>, needle: Seq<char>, at: int) -> bool {
    &&& 0 <= at
    &&& at + needle.len() <= hay.len()
    &&& hay.subrange(at, at + needle.len()) == needle
}

/// The first position at or after `from` where `needle` occurs in `hay`,
/// or -1 if it occurs nowhere at or after `from`.
pub open spec fn first_match_from(hay: Seq<char>, needle: Seq<char>, from: int) -> int
    recommends
        0 <= from,
    decreases hay.len() - from,
{
    if from < 0 || from + needle.len() > hay.len() {
        -1
    } else if needle.len() == 0 || hay.subrange(from, from + needle.len()) == needle {
        from
    } else {
        first_match_from(hay, needle, from + 1)
    }
}

/// `needle` occurs somewhere in `hay`.
pub open spec fn contains_seq(hay: Seq<char>, needle: Seq<char>) -> bool {
    first_match_from(hay, needle, 0) >= 0
}

/// Where a match stands at `i` and none before it from `from` on,
/// `first_match_from` finds exactly `i`.
pub proof fn lemma_first_match_at(hay: Seq<char>, needle: Seq<char>, from: int, i: int)
    requires
        needle.len() > 0,
        0 <= from <= i,
        match_at(hay, needle, i),
        forall|j: int| from <= j < i ==> !match_at(hay, needle, j),
    ensures
        first_match_from(hay, needle, from) == i,
    decreases i - from,
{
    if from == i {
    } else {
        assert(!match_at(hay, needle, from));
        lemma_first_match_at(hay, needle, from + 1, i);
    }
}

/// Whether `needle` stands in `hay` at position `at`.
fn is_match_at(hay: &str, needle: &str, at: usize) -> (r: bool)
    requires
        at + needle@.len() <= hay@.len(),
    ensures
        r == match_at(hay@, needle@, at as int),
{
    let hlen = hay.unicode_len();
    let nlen = needle.unicode_len();
    let mut j: usize = 0;
    while j < nlen
        invariant
            hlen == hay@.len(),
            nlen == needle@.len(),
            at + nlen <= hlen,
            j <= nlen,
            forall|k: int| 0 <= k < j ==> hay@[at + k] == needle@[k],
        decreases nlen - j,
    {
        if hay.get_char(at + j) != needle.get_char(j) {
            proof {
                assert(hay@.subrange(at as int, at + nlen as int)[j as int] == hay@[at + j]);
            }
            return false;
        }
        j += 1;
    }
    proof {
        assert(hay@.subrange(at as int, at + nlen as int) =~= needle@);
    }
    true
}

/// The position of the leftmost occurrence of `needle` in `hay`, if any:
/// the same answer the standard substring search gives.
fn find_str(hay: &str, needle: &str) -> (r: Option<usize>)
    ensures
        r matches Some(i) ==> i as int == first_match_from(hay@, needle@, 0) && match_at(
            hay@,
            needle@,
            i as int,
        ),
        r is None ==> first_match_from(hay@, needle@, 0) == -1,
{
    let hlen = hay.unicode_len();
    let nlen = needle.unicode_len();
    if nlen > hlen {
        return None;
    }
    let mut i: usize = 0;
    while i <= hlen - nlen
        invariant
            hlen == hay@.len(),
            nlen == needle@.len(),
            nlen <= hlen,
            i <= hlen - nlen + 1,
            first_match_from(hay@, needle@, 0) == first_match_from(hay@, needle@, i as int),
        decreases hlen - nlen + 1 - i,
    {
        if is_match_at(hay, needle, i) {
            return Some(i);
        }
        proof {
            if needle@.len() == 0 {
                assert(hay@.subrange(i as int, i as int) =~= needle@);
            }
            assert(first_match_from(hay@, needle@, i as int) == first_match_from(
                hay@,
                needle@,
                i as int + 1,
            ));
        }
        i += 1;
    }
    None
}

/// The piece of `s` between the first separator and the next one, or the
/// end where no second separator follows: what the split-and-take-second
/// read of the config text yields.
pub open spec fn second_field(s: Seq<char>) -> Seq<char>
    recommends
        contains_seq(s, separator()),
{
    let i = first_match_from(s, separator(), 0);
    let rest = s.subrange(i + separator().len(), s.len() as int);
    if contains_seq(rest, separator()) {
        rest.subrange(0, first_match_from(rest, separator(), 0))
    } else {
        rest
    }
}

/// What a read of the config text yields.
pub enum ConfigContents {
    /// The marker is absent: no file has been selected.
    NoSelection,
    /// The marker is present but no separator follows it: the config file's
    /// format is broken, which the caller treats as fatal.
    Malformed,
    /// The recorded path.
    Selected(String),
}

/// The entire contents of the config file recording a selected `path`:
/// the single line `Audio: <path>`, overwriting whatever was there.
pub fn encode_config(path: &str) -> (r: String)
    ensures
        r@ == config_prefix() + path@,
{
    String::from_str("Audio: ").concat(path)
}

/// Read a selection back out of the config text: no marker means no
/// selection; a marker with no separator is a broken file; otherwise the
/// recorded path is the piece between the first separator and the next.
pub fn parse_config(contents: &str) -> (r: ConfigContents)
    ensures
        r is NoSelection <==> !contains_seq(contents@, audio_marker()),
        r is Malformed <==> contains_seq(contents@, audio_marker()) && !contains_seq(
            contents@,
            separator(),
        ),
        r matches ConfigContents::Selected(path) ==> contains_seq(contents@, audio_marker())
            && contains_seq(contents@, separator()) && path@ == second_field(contents@),
{
    if find_str(contents, "Audio").is_none() {
        return ConfigContents::NoSelection;
    }
    let sep_at = match find_str(contents, ": ") {
        None => {
            return ConfigContents::Malformed;
        },
        Some(i) => i,
    };
    proof {
        reveal_strlit(": ");
    }
    let hlen = contents.unicode_len();
    let rest = contents.substring_char(sep_at + 2, hlen);
    let path = match find_str(rest, ": ") {
        None => rest.to_owned(),
        Some(j) => rest.substring_char(0, j).to_owned(),
    };
    ConfigContents::Selected(path)
}

/// Law: recording a path and reading the text back yields exactly that
/// path, for every path free of the separator; and the recorded text always
/// carries the marker and the separator, so the read never answers
/// `NoSelection` or `Malformed` on it.
pub proof fn lemma_config_round_trip(path: Seq<char>)
    requires
        !contains_seq(path, separator()),
    ensures
        contains_seq(config_prefix() + path, audio_marker()),
        contains_seq(config_prefix() + path, separator()),
        second_field(config_prefix() + path) == path,
{
    reveal_strlit("Audio: ");
    reveal_strlit("Audio");
    reveal_strlit(": ");
    let s = config_prefix() + path;
    assert(config_prefix().len() == 7);
    assert(audio_marker().len() == 5);
    assert(separator().len() == 2);
    assert(s.subrange(0, 5) =~= audio_marker()) by {
        assert forall|k: int| 0 <= k < 5 implies s.subrange(0, 5)[k] == audio_marker()[k] by {
            assert(s[k] == config_prefix()[k]);
        }
    }
    assert(match_at(s, audio_marker(), 0));
    lemma_first_match_at(s, audio_marker(), 0, 0);
    assert(s.subrange(5, 7) =~= separator()) by {
        assert(s[5] == config_prefix()[5]);
        assert(s[6] == config_prefix()[6]);
        assert(s.subrange(5, 7)[0] == s[5]);
        assert(s.subrange(5, 7)[1] == s[6]);
    }
    assert(match_at(s, separator(), 5));
    assert forall|j: int| 0 <= j < 5 implies !match_at(s, separator(), j) by {
        if match_at(s, separator(), j) {
            assert(s.subrange(j, j + 2)[0] == s[j]);
            assert(s[j] == config_prefix()[j]);
        }
    }
    lemma_first_match_at(s, separator(), 0, 5);
    let rest = s.subrange(7, s.len() as int);
    assert(rest =~= path);
    assert(second_field(s) == path);
}

} // verus!
