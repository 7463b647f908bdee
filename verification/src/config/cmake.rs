//! CMake flags for each backend, the CUDA architecture choice, and the
//! parsing of the architectures that `nvcc` reports.

use crate::config::BackendName;
use crate::text::{
    chars_of, chars_start_with, joined, lines_of, lines_seq, matches_at, occurs_at, parse_u32,
    parse_unsigned, pieces_view, remove_char, starts_with, string_of, strings_view, trim,
    trim_chars, without_char,
};
use vstd::prelude::*;
use vstd::string::*;

verus! {

/// The numeric value of an architecture code, 0 when it is not a `u32`.
pub open spec fn arch_key(a: Seq<char>) -> nat {
    match parse_unsigned(a, u32::MAX as nat) {
        Some(v) => v,
        None => 0,
    }
}

/// The architecture codes named by `nvcc --list-gpu-arch` output lines:
/// each line trimmed, and of those that begin with `compute_`, the rest.
pub open spec fn arch_codes(lines: Seq<Seq<char>>) -> Seq<Seq<char>>
    decreases lines.len(),
{
    if lines.len() == 0 {
        seq![]
    } else {
        let rest = arch_codes(lines.drop_last());
        let t = trim(lines.last());
        if starts_with(t, "compute_"@) {
            rest.push(t.skip(8))
        } else {
            rest
        }
    }
}

/// `s` with `x` inserted after every element whose key is at most `x`'s
/// (for a key-sorted `s`, this keeps it sorted and stable).
pub open spec fn insert_by_key(s: Seq<Seq<char>>, x: Seq<char>) -> Seq<Seq<char>>
    decreases s.len(),
{
    if s.len() == 0 {
        seq![x]
    } else if arch_key(s.last()) <= arch_key(x) {
        s.push(x)
    } else {
        insert_by_key(s.drop_last(), x).push(s.last())
    }
}

/// The stable sort of `s` by numeric key.
pub open spec fn sort_by_key(s: Seq<Seq<char>>) -> Seq<Seq<char>>
    decreases s.len(),
{
    if s.len() == 0 {
        seq![]
    } else {
        insert_by_key(sort_by_key(s.drop_last()), s.last())
    }
}

/// `s` with each run of equal neighbours reduced to its first element.
pub open spec fn dedup_seq(s: Seq<Seq<char>>) -> Seq<Seq<char>>
    decreases s.len(),
{
    if s.len() <= 1 {
        s
    } else {
        let r = dedup_seq(s.drop_last());
        if s.last() == s[s.len() - 2] {
            r
        } else {
            r.push(s.last())
        }
    }
}

/// The architectures `nvcc` supports, from its `--list-gpu-arch` output:
/// numerically sorted, equal neighbours removed.
pub open spec fn spec_nvcc_archs(stdout: Seq<char>) -> Seq<Seq<char>> {
    dedup_seq(sort_by_key(arch_codes(lines_seq(stdout))))
}

pub open spec fn key_sorted(s: Seq<Seq<char>>) -> bool {
    forall|i: int, j: int| 0 <= i <= j < s.len() ==> arch_key(s[i]) <= arch_key(s[j])
}

proof fn lemma_insert_len(s: Seq<Seq<char>>, x: Seq<char>)
    ensures
        insert_by_key(s, x).len() == s.len() + 1,
    decreases s.len(),
{
    if s.len() > 0 && arch_key(s.last()) > arch_key(x) {
        lemma_insert_len(s.drop_last(), x);
    }
}

proof fn lemma_insert_sorted(s: Seq<Seq<char>>, x: Seq<char>)
    requires
        key_sorted(s),
    ensures
        key_sorted(insert_by_key(s, x)),
        forall|i: int|
            0 <= i < insert_by_key(s, x).len() ==> arch_key(#[trigger] insert_by_key(s, x)[i])
                == arch_key(x) || exists|k: int| 0 <= k < s.len() && arch_key(s[k]) == arch_key(
                insert_by_key(s, x)[i],
            ),
    decreases s.len(),
{
    lemma_insert_len(s, x);
    if s.len() == 0 {
    } else if arch_key(s.last()) <= arch_key(x) {
        let r = s.push(x);
        assert forall|i: int| 0 <= i < r.len() implies arch_key(#[trigger] r[i]) == arch_key(x)
            || exists|k: int| 0 <= k < s.len() && arch_key(s[k]) == arch_key(r[i]) by {
            if i < s.len() {
                assert(arch_key(s[i]) == arch_key(r[i]));
            }
        }
    } else {
        let t = s.drop_last();
        assert(key_sorted(t));
        lemma_insert_sorted(t, x);
        lemma_insert_len(t, x);
        let it = insert_by_key(t, x);
        let r = it.push(s.last());
        assert forall|i: int, j: int| 0 <= i <= j < r.len() implies arch_key(r[i]) <= arch_key(
            r[j],
        ) by {
            if j == r.len() - 1 && i < j {
                assert(arch_key(it[i]) == arch_key(x) || exists|k: int|
                    0 <= k < t.len() && arch_key(t[k]) == arch_key(it[i]));
                if arch_key(it[i]) != arch_key(x) {
                    let k = choose|k: int| 0 <= k < t.len() && arch_key(t[k]) == arch_key(it[i]);
                    assert(arch_key(s[k]) <= arch_key(s[s.len() - 1]));
                }
            }
        }
        assert forall|i: int| 0 <= i < r.len() implies arch_key(#[trigger] r[i]) == arch_key(x)
            || exists|k: int| 0 <= k < s.len() && arch_key(s[k]) == arch_key(r[i]) by {
            if i < it.len() {
                assert(arch_key(it[i]) == arch_key(x) || exists|k: int|
                    0 <= k < t.len() && arch_key(t[k]) == arch_key(it[i]));
                if arch_key(it[i]) != arch_key(x) {
                    let k = choose|k: int| 0 <= k < t.len() && arch_key(t[k]) == arch_key(it[i]);
                    assert(arch_key(s[k]) == arch_key(r[i]));
                }
            } else {
                assert(arch_key(s[s.len() - 1]) == arch_key(r[i]));
            }
        }
    }
}

/// The sorted architecture list is in non-decreasing numeric order.
pub proof fn lemma_sort_sorted(s: Seq<Seq<char>>)
    ensures
        key_sorted(sort_by_key(s)),
    decreases s.len(),
{
    if s.len() > 0 {
        lemma_sort_sorted(s.drop_last());
        lemma_insert_sorted(sort_by_key(s.drop_last()), s.last());
    }
}

proof fn lemma_insert_at(s: Seq<Seq<char>>, x: Seq<char>, j: int)
    requires
        0 <= j <= s.len(),
        forall|k: int| j <= k < s.len() ==> arch_key(#[trigger] s[k]) > arch_key(x),
        j == 0 || arch_key(s[j - 1]) <= arch_key(x),
    ensures
        insert_by_key(s, x) == s.take(j).push(x) + s.skip(j),
    decreases s.len() - j,
{
    if j == s.len() {
        if s.len() == 0 {
            assert(s.take(j).push(x) + s.skip(j) =~= seq![x]);
        } else {
            assert(s.take(j).push(x) + s.skip(j) =~= s.push(x));
        }
    } else {
        let t = s.drop_last();
        assert forall|k: int| j <= k < t.len() implies arch_key(#[trigger] t[k]) > arch_key(x) by {
            assert(t[k] == s[k]);
        }
        if j > 0 {
            assert(t[j - 1] == s[j - 1]);
        }
        lemma_insert_at(t, x, j);
        assert(t.take(j).push(x) + t.skip(j) + seq![s.last()] =~= s.take(j).push(x) + s.skip(j));
    }
}

/// The architectures `nvcc` supports, parsed from its output.
pub fn parse_nvcc_archs(stdout: &str) -> (r: Vec<String>)
    ensures
        strings_view(r@) == spec_nvcc_archs(stdout@),
{
    let cs = chars_of(stdout);
    let lines = lines_of(cs.as_slice());
    let ghost lv = pieces_view(lines@);
    let prefix = chars_of("compute_");
    proof {
        reveal_strlit("compute_");
    }
    // Collect the architecture codes, in the order of the lines.
    let mut codes: Vec<Vec<char>> = Vec::new();
    let mut keys: Vec<u32> = Vec::new();
    let mut i: usize = 0;
    assert(lv.take(0) =~= Seq::<Seq<char>>::empty());
    while i < lines.len()
        invariant
            lv == pieces_view(lines@),
            prefix@ == "compute_"@,
            prefix@.len() == 8,
            i <= lines.len(),
            pieces_view(codes@) == arch_codes(lv.take(i as int)),
            keys@.len() == codes@.len(),
            forall|k: int| 0 <= k < keys@.len() ==> keys@[k] as nat == arch_key(#[trigger] codes@[k]@),
        decreases lines.len() - i,
    {
        assert(lv.take(i + 1).drop_last() =~= lv.take(i as int));
        assert(lv.take(i + 1).last() == lines@[i as int]@);
        let t = trim_chars(lines[i].as_slice());
        if chars_start_with(t.as_slice(), prefix.as_slice()) {
            let mut code: Vec<char> = Vec::new();
            let mut k: usize = 8;
            while k < t.len()
                invariant
                    8 <= k <= t.len(),
                    code@ =~= t@.subrange(8, k as int),
                decreases t.len() - k,
            {
                code.push(t[k]);
                k = k + 1;
            }
            assert(code@ =~= t@.skip(8));
            let key: u32 = match parse_u32(code.as_slice()) {
                Some(v) => v,
                None => 0,
            };
            let ghost before = pieces_view(codes@);
            codes.push(code);
            keys.push(key);
            assert(pieces_view(codes@) =~= before.push(t@.skip(8)));
        }
        i = i + 1;
    }
    assert(lv.take(lines.len() as int) =~= lv);
    let ghost all_codes = pieces_view(codes@);
    // Stable insertion sort by key.
    let mut sorted: Vec<Vec<char>> = Vec::new();
    let mut skeys: Vec<u32> = Vec::new();
    let mut n: usize = 0;
    assert(all_codes.take(0) =~= Seq::<Seq<char>>::empty());
    while n < codes.len()
        invariant
            all_codes == pieces_view(codes@),
            keys@.len() == codes@.len(),
            forall|k: int| 0 <= k < keys@.len() ==> keys@[k] as nat == arch_key(#[trigger] codes@[k]@),
            n <= codes.len(),
            pieces_view(sorted@) == sort_by_key(all_codes.take(n as int)),
            skeys@.len() == sorted@.len(),
            forall|k: int|
                0 <= k < skeys@.len() ==> skeys@[k] as nat == arch_key(#[trigger] sorted@[k]@),
        decreases codes.len() - n,
    {
        assert(all_codes.take(n + 1).drop_last() =~= all_codes.take(n as int));
        assert(all_codes.take(n + 1).last() == codes@[n as int]@);
        let key = keys[n];
        let mut j: usize = sorted.len();
        while j > 0 && skeys[j - 1] > key
            invariant
                j <= sorted@.len(),
                skeys@.len() == sorted@.len(),
                forall|k: int|
                    0 <= k < skeys@.len() ==> skeys@[k] as nat == arch_key(
                        #[trigger] sorted@[k]@,
                    ),
                forall|k: int| j <= k < sorted@.len() ==> skeys@[k] > key,
            decreases j,
        {
            j = j - 1;
        }
        let ghost sv = pieces_view(sorted@);
        proof {
            assert forall|k: int| j <= k < sv.len() implies arch_key(#[trigger] sv[k]) > arch_key(
                codes@[n as int]@,
            ) by {
                assert(skeys@[k] > key);
            }
            if j > 0 {
                assert(skeys@[j - 1] <= key);
            }
            lemma_insert_at(sv, codes@[n as int]@, j as int);
        }
        sorted.insert(j, codes[n].clone());
        skeys.insert(j, key);
        assert(pieces_view(sorted@) =~= sv.take(j as int).push(codes@[n as int]@) + sv.skip(j as int));
        n = n + 1;
    }
    assert(all_codes.take(codes.len() as int) =~= all_codes);
    let ghost sorted_v = pieces_view(sorted@);
    // Remove equal neighbours, keeping the first of each run.
    let mut out: Vec<String> = Vec::new();
    let mut m: usize = 0;
    assert(sorted_v.take(0) =~= Seq::<Seq<char>>::empty());
    while m < sorted.len()
        invariant
            sorted_v == pieces_view(sorted@),
            m <= sorted.len(),
            strings_view(out@) == dedup_seq(sorted_v.take(m as int)),
        decreases sorted.len() - m,
    {
        let ghost pre = sorted_v.take(m as int);
        let ghost cur = sorted_v.take(m + 1);
        assert(cur.drop_last() =~= pre);
        assert(cur.last() == sorted@[m as int]@);
        let keep = if m == 0 {
            true
        } else {
            assert(cur[cur.len() - 2] == sorted@[m - 1]@);
            !(sorted[m].len() == sorted[m - 1].len() && matches_at(
                sorted[m].as_slice(),
                sorted[m - 1].as_slice(),
                0,
            ))
        };
        proof {
            if m > 0 {
                let a = sorted@[m as int]@;
                let b = sorted@[m - 1]@;
                assert(a.subrange(0, a.len() as int) =~= a);
                assert(keep <==> a != b);
            } else {
                assert(cur =~= seq![sorted@[0]@]);
            }
        }
        if keep {
            let ghost before = strings_view(out@);
            out.push(string_of(sorted[m].as_slice()));
            assert(strings_view(out@) =~= before.push(sorted@[m as int]@));
        }
        m = m + 1;
    }
    assert(sorted_v.take(sorted.len() as int) =~= sorted_v);
    out
}

// ---------------------------------------------------------------------------
// CUDA architecture resolution and CMake flags
// ---------------------------------------------------------------------------

/// The CUDA architecture to build for: the requested one with its dots
/// removed when `nvcc` supports it, otherwise the highest `nvcc` supports;
/// `native` when nothing was requested or `nvcc` reported nothing.
pub open spec fn spec_resolve_cuda_arch(
    requested: Option<Seq<char>>,
    supported: Seq<Seq<char>>,
) -> Seq<char> {
    match requested {
        None => "native"@,
        Some(raw) => {
            let arch = without_char(raw, '.');
            if supported.len() == 0 {
                "native"@
            } else if supported.contains(arch) {
                arch
            } else {
                supported.last()
            }
        },
    }
}

/// Resolve a CUDA architecture value that `nvcc` actually supports, given
/// the list of architectures it supports (sorted, highest last).
pub fn resolve_cuda_arch(requested: Option<&str>, supported: &[String]) -> (r: String)
    ensures
        r@ == spec_resolve_cuda_arch(
            match requested {
                Some(s) => Some(s@),
                None => None,
            },
            strings_view(supported@),
        ),
{
    match requested {
        None => String::from_str("native"),
        Some(raw) => {
            let arch = remove_char(raw, '.');
            let ghost sv = strings_view(supported@);
            if supported.len() == 0 {
                return String::from_str("native");
            }
            let mut i: usize = 0;
            while i < supported.len()
                invariant
                    sv == strings_view(supported@),
                    arch@ == without_char(raw@, '.'),
                    requested == Some(raw),
                    supported@.len() > 0,
                    i <= supported.len(),
                    forall|k: int| 0 <= k < i ==> sv[k] != arch@,
                decreases supported.len() - i,
            {
                if supported[i] == arch {
                    assert(sv[i as int] == arch@);
                    assert(sv.contains(arch@));
                    return arch;
                }
                i = i + 1;
            }
            assert(!sv.contains(arch@));
            supported[supported.len() - 1].clone()
        },
    }
}

/// The CMake flags for a backend; `arch` is the resolved CUDA architecture.
pub open spec fn spec_cmake_flags(backend: BackendName, arch: Seq<char>) -> Seq<Seq<char>> {
    seq!["-DCMAKE_BUILD_TYPE=Release"@] + match backend {
        BackendName::Cuda => seq![
            "-DGGML_CUDA=ON"@,
            "-DGGML_CUDA_F16=ON"@,
            "-DCMAKE_CUDA_ARCHITECTURES="@ + arch,
        ],
        BackendName::Hip => seq![
            "-DGGML_HIPBLAS=ON"@,
            "-DCMAKE_C_COMPILER=clang"@,
            "-DCMAKE_CXX_COMPILER=clang++"@,
        ],
        BackendName::Metal => seq!["-DGGML_METAL=ON"@, "-DGGML_METAL_EMBED_LIBRARY=ON"@],
        BackendName::Vulkan => seq!["-DGGML_VULKAN=ON"@],
        BackendName::OpenBlas => seq!["-DGGML_BLAS=ON"@, "-DGGML_BLAS_VENDOR=OpenBLAS"@],
        BackendName::CpuOnly => seq!["-DGGML_NATIVE=ON"@],
    }
}

/// Generate CMake flags for the given backend. `nvcc_archs` lists the
/// architectures the installed `nvcc` supports (sorted, highest last).
pub fn generate_cmake_flags(backend: BackendName, cuda_arch: Option<&str>, nvcc_archs: &[String]) -> (r:
    Vec<String>)
    ensures
        strings_view(r@) == spec_cmake_flags(
            backend,
            spec_resolve_cuda_arch(
                match cuda_arch {
                    Some(s) => Some(s@),
                    None => None,
                },
                strings_view(nvcc_archs@),
            ),
        ),
{
    let mut flags: Vec<String> = Vec::new();
    flags.push(String::from_str("-DCMAKE_BUILD_TYPE=Release"));
    match backend {
        BackendName::Cuda => {
            flags.push(String::from_str("-DGGML_CUDA=ON"));
            flags.push(String::from_str("-DGGML_CUDA_F16=ON"));
            let resolved = resolve_cuda_arch(cuda_arch, nvcc_archs);
            let mut f = String::from_str("-DCMAKE_CUDA_ARCHITECTURES=");
            f.append(resolved.as_str());
            flags.push(f);
        },
        BackendName::Hip => {
            flags.push(String::from_str("-DGGML_HIPBLAS=ON"));
            flags.push(String::from_str("-DCMAKE_C_COMPILER=clang"));
            flags.push(String::from_str("-DCMAKE_CXX_COMPILER=clang++"));
        },
        BackendName::Metal => {
            flags.push(String::from_str("-DGGML_METAL=ON"));
            flags.push(String::from_str("-DGGML_METAL_EMBED_LIBRARY=ON"));
        },
        BackendName::Vulkan => {
            flags.push(String::from_str("-DGGML_VULKAN=ON"));
        },
        BackendName::OpenBlas => {
            flags.push(String::from_str("-DGGML_BLAS=ON"));
            flags.push(String::from_str("-DGGML_BLAS_VENDOR=OpenBLAS"));
        },
        BackendName::CpuOnly => {
            flags.push(String::from_str("-DGGML_NATIVE=ON"));
        },
    }
    let ghost arch = spec_resolve_cuda_arch(
        match cuda_arch {
            Some(s) => Some(s@),
            None => None,
        },
        strings_view(nvcc_archs@),
    );
    assert(strings_view(flags@) =~= spec_cmake_flags(backend, arch));
    flags
}

/// A human-readable cmake invocation.
pub open spec fn spec_cmake_command(source_dir: Seq<char>, build_dir: Seq<char>, flags: Seq<
    Seq<char>,
>) -> Seq<char> {
    "cmake -S "@ + source_dir + " -B "@ + build_dir + " \\\n"@ + joined(
        flags.map_values(|f: Seq<char>| "  "@ + f),
        " \\\n"@,
    )
}

/// Format a human-readable cmake invocation string.
pub fn format_cmake_command(source_dir: &str, build_dir: &str, flags: &[String]) -> (r: String)
    ensures
        r@ == spec_cmake_command(source_dir@, build_dir@, strings_view(flags@)),
{
    let ghost fv = strings_view(flags@);
    let ghost items = fv.map_values(|f: Seq<char>| "  "@ + f);
    let mut body = String::new();
    let mut i: usize = 0;
    while i < flags.len()
        invariant
            fv == strings_view(flags@),
            items == fv.map_values(|f: Seq<char>| "  "@ + f),
            i <= flags.len(),
            body@ == joined(items.take(i as int), " \\\n"@),
        decreases flags.len() - i,
    {
        let ghost prev = items.take(i as int);
        assert(items.take(i + 1).drop_last() =~= prev);
        assert(items.take(i + 1).last() == "  "@ + flags@[i as int]@);
        if i > 0 {
            body.append(" \\\n");
        } else {
            assert(prev.len() == 0);
        }
        body.append("  ");
        body.append(flags[i].as_str());
        proof {
            if i > 0 {
                assert(body@ =~= joined(prev, " \\\n"@) + " \\\n"@ + ("  "@ + flags@[i as int]@));
            } else {
                assert(body@ =~= "  "@ + flags@[i as int]@);
            }
        }
        i = i + 1;
    }
    assert(items.take(flags.len() as int) =~= items);
    let mut out = String::from_str("cmake -S ");
    out.append(source_dir);
    out.append(" -B ");
    out.append(build_dir);
    out.append(" \\\n");
    out.append(body.as_str());
    out
}


/// The architecture handed to CMake is always one `nvcc` reported, or
/// `native`.
pub proof fn lemma_resolved_arch_supported(requested: Option<Seq<char>>, supported: Seq<Seq<char>>)
    ensures
        spec_resolve_cuda_arch(requested, supported) == "native"@ || supported.contains(
            spec_resolve_cuda_arch(requested, supported),
        ),
{
    if let Some(raw) = requested {
        if supported.len() > 0 && !supported.contains(without_char(raw, '.')) {
            assert(supported[supported.len() - 1] == supported.last());
        }
    }
}

proof fn lemma_dedup_sorted(s: Seq<Seq<char>>)
    requires
        key_sorted(s),
    ensures
        key_sorted(dedup_seq(s)),
        s.len() > 0 ==> forall|i: int|
            0 <= i < dedup_seq(s).len() ==> arch_key(#[trigger] dedup_seq(s)[i]) <= arch_key(
                s.last(),
            ),
        forall|i: int|
            0 <= i < dedup_seq(s).len() - 1 ==> #[trigger] dedup_seq(s)[i] != dedup_seq(s)[i + 1],
    decreases s.len(),
{
    if s.len() > 1 {
        let t = s.drop_last();
        assert(key_sorted(t));
        lemma_dedup_sorted(t);
        let r = dedup_seq(t);
        assert(arch_key(t.last()) <= arch_key(s.last()));
        if s.last() != s[s.len() - 2] {
            let d = r.push(s.last());
            assert(dedup_seq(s) == d);
            assert forall|i: int, j: int| 0 <= i <= j < d.len() implies arch_key(d[i]) <= arch_key(
                d[j],
            ) by {
                if j == d.len() - 1 && i < j {
                    assert(arch_key(r[i]) <= arch_key(t.last()));
                }
            }
            assert forall|i: int| 0 <= i < d.len() implies arch_key(#[trigger] d[i]) <= arch_key(
                s.last(),
            ) by {
                if i < r.len() {
                    assert(arch_key(r[i]) <= arch_key(t.last()));
                }
            }
            if r.len() > 0 {
                lemma_dedup_last(t);
                assert(d[r.len() - 1] == r.last());
            }
        } else {
            assert(dedup_seq(s) == r);
            assert forall|i: int| 0 <= i < r.len() implies arch_key(#[trigger] r[i]) <= arch_key(
                s.last(),
            ) by {
                assert(arch_key(r[i]) <= arch_key(t.last()));
            }
        }
    } else if s.len() == 1 {
        assert(dedup_seq(s) == s);
    }
}

proof fn lemma_dedup_last(s: Seq<Seq<char>>)
    requires
        s.len() > 0,
    ensures
        dedup_seq(s).len() > 0,
        dedup_seq(s).last() == s.last(),
    decreases s.len(),
{
    if s.len() > 1 {
        lemma_dedup_last(s.drop_last());
    }
}

/// The architectures read from `nvcc` come out in non-decreasing numeric
/// order, each different from the next, so the highest is last.
pub proof fn lemma_nvcc_archs_sorted(stdout: Seq<char>)
    ensures
        key_sorted(spec_nvcc_archs(stdout)),
        forall|i: int|
            0 <= i < spec_nvcc_archs(stdout).len() - 1 ==> #[trigger] spec_nvcc_archs(stdout)[i]
                != spec_nvcc_archs(stdout)[i + 1],
{
    let s = sort_by_key(arch_codes(lines_seq(stdout)));
    lemma_sort_sorted(arch_codes(lines_seq(stdout)));
    lemma_dedup_sorted(s);
}

} // verus!
