//! Operating system and CUDA toolkit detection from what the system reports.

use crate::text::{
    chars_of, contains_chars, contains_seq, lines_of, lines_seq, pieces_view, split_chars, split_on,
    split_seq, split_str_seq, str_contains, string_of, trim, trim_chars,
};
use vstd::prelude::*;

verus! {

/// The Linux flavour named by `/proc/version`: WSL when it mentions
/// `Microsoft` or `WSL`, plain Linux otherwise or when it cannot be read.
pub fn linux_flavour(proc_version: Option<&str>) -> (r: &'static str)
    ensures
        proc_version matches Some(v) && (contains_seq(v@, "Microsoft"@) || contains_seq(v@, "WSL"@))
            ==> r@ == "Linux (WSL)"@,
        !(proc_version matches Some(v) && (contains_seq(v@, "Microsoft"@) || contains_seq(
            v@,
            "WSL"@,
        ))) ==> r@ == "Linux"@,
{
    match proc_version {
        Some(v) => if str_contains(v, "Microsoft") || str_contains(v, "WSL") {
            "Linux (WSL)"
        } else {
            "Linux"
        },
        None => "Linux",
    }
}

/// The version on a `nvcc --version` line that contains `release`: the
/// text after the first `release` (up to any next one), trimmed, cut at its
/// first comma and trimmed again.
pub open spec fn release_version(line: Seq<char>) -> Seq<char> {
    let after = split_str_seq(line, "release"@)[1];
    trim(split_seq(trim(after), ',')[0])
}

/// The version found on the first line containing `release`.
pub open spec fn nvcc_scan(lines: Seq<Seq<char>>) -> Option<Seq<char>>
    decreases lines.len(),
{
    if lines.len() == 0 {
        None
    } else if contains_seq(lines[0], "release"@) {
        Some(release_version(lines[0]))
    } else {
        nvcc_scan(lines.drop_first())
    }
}

proof fn lemma_split_release_two_pieces(s: Seq<char>)
    requires
        contains_seq(s, "release"@),
    ensures
        split_str_seq(s, "release"@).len() >= 2,
    decreases s.len(),
{
    reveal_strlit("release");
    let p = "release"@;
    let i = choose|i: int| crate::text::occurs_at(s, p, i);
    if crate::text::starts_with(s, p) {
        crate::text::lemma_split_str_nonempty(s.skip(p.len() as int), p);
    } else {
        assert(i > 0) by {
            if i == 0 {
                assert(crate::text::occurs_at(s, p, 0));
            }
        }
        let t = s.drop_first();
        assert(crate::text::occurs_at(t, p, i - 1)) by {
            assert(t.subrange(i - 1, i - 1 + p.len()) =~= s.subrange(i, i + p.len()));
        }
        lemma_split_release_two_pieces(t);
    }
}

/// The CUDA toolkit version from `nvcc --version` output, if a line names
/// its release.
pub fn parse_nvcc_version(stdout: &str) -> (r: Option<String>)
    ensures
        match r {
            Some(v) => nvcc_scan(lines_seq(stdout@)) == Some(v@),
            None => nvcc_scan(lines_seq(stdout@)) is None,
        },
{
    let cs = chars_of(stdout);
    let lines = lines_of(cs.as_slice());
    let ghost lv = pieces_view(lines@);
    let pat = chars_of("release");
    proof {
        reveal_strlit("release");
    }
    let mut i: usize = 0;
    assert(lv.skip(0) =~= lv);
    while i < lines.len()
        invariant
            lv == pieces_view(lines@),
            lv == lines_seq(stdout@),
            pat@ == "release"@,
            i <= lines.len(),
            nvcc_scan(lv) == nvcc_scan(lv.skip(i as int)),
        decreases lines.len() - i,
    {
        let ghost rest = lv.skip(i as int);
        assert(rest[0] == lines@[i as int]@);
        assert(rest.drop_first() =~= lv.skip(i + 1));
        if contains_chars(lines[i].as_slice(), pat.as_slice()) {
            proof {
                lemma_split_release_two_pieces(lines@[i as int]@);
            }
            let pieces = split_on(lines[i].as_slice(), pat.as_slice());
            assert(pieces_view(pieces@)[1] == pieces@[1]@);
            let after = trim_chars(pieces[1].as_slice());
            let fields = split_chars(after.as_slice(), ',');
            proof {
                crate::text::lemma_split_nonempty(after@, ',');
            }
            assert(pieces_view(fields@)[0] == fields@[0]@);
            let v = trim_chars(fields[0].as_slice());
            return Some(string_of(v.as_slice()));
        }
        i = i + 1;
    }
    assert(lv.skip(i as int) =~= Seq::<Seq<char>>::empty());
    None
}

} // verus!
