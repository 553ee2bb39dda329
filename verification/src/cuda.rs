use vstd::prelude::*;

verus! {

/// What the accelerator setup decides to do, given what the probes of the
/// machine reported. Running the probes and the package installs is command
/// execution at the boundary; the decision is made here.
#[derive(Clone, Copy, Debug, PartialEq, Eq, Structural)]
pub enum CudaAction {
    AlreadyInstalled,
    AptInstall,
    DnfInstall,
    Unknown,
}

/// Whether `n` occurs in `h` as a contiguous run.
pub open spec fn contains_seq(h: Seq<char>, n: Seq<char>) -> bool {
    exists|k: int| 0 <= k <= h.len() - n.len() && #[trigger] h.subrange(k, k + n.len() as int) == n
}

/// Whether `hay` has `needle` as a substring.
pub fn str_contains(hay: &str, needle: &str) -> (r: bool)
    ensures
        r == contains_seq(hay@, needle@),
{
    let hl = hay.unicode_len();
    let nl = needle.unicode_len();
    if nl == 0 {
        proof {
            assert(hay@.subrange(0, 0 + needle@.len() as int) =~= needle@);
        }
        return true;
    }
    if nl > hl {
        return false;
    }
    let mut k: usize = 0;
    while k <= hl - nl
        invariant
            hl == hay@.len(),
            nl == needle@.len(),
            1 <= nl <= hl,
            k <= hl - nl + 1,
            forall|kk: int|
                0 <= kk < k ==> #[trigger] hay@.subrange(kk, kk + needle@.len() as int)
                    != needle@,
        decreases hl - k,
    {
        if match_at(hay, needle, k) {
            proof {
                assert(contains_seq(hay@, needle@));
            }
            return true;
        }
        k = k + 1;
    }
    proof {
        assert forall|kk: int| 0 <= kk <= hay@.len() - needle@.len() implies #[trigger] hay@.subrange(
            kk,
            kk + needle@.len() as int,
        ) != needle@ by {
            assert(kk < k);
        }
    }
    false
}

/// Whether `needle` matches `hay` starting at position `k`.
fn match_at(hay: &str, needle: &str, k: usize) -> (r: bool)
    requires
        k + needle@.len() <= hay@.len(),
    ensures
        r == (hay@.subrange(k as int, k as int + needle@.len() as int) == needle@),
{
    let hl = hay.unicode_len();
    let nl = needle.unicode_len();
    let mut j: usize = 0;
    while j < nl
        invariant
            hl == hay@.len(),
            nl == needle@.len(),
            k + nl <= hay@.len(),
            j <= nl,
            forall|i: int| 0 <= i < j ==> hay@[k + i] == needle@[i],
        decreases nl - j,
    {
        if hay.get_char(k + j) != needle.get_char(j) {
            proof {
                let sub = hay@.subrange(k as int, k as int + needle@.len() as int);
                assert(sub[j as int] == hay@[k + j]);
            }
            return false;
        }
        j = j + 1;
    }
    proof {
        assert(hay@.subrange(k as int, k as int + needle@.len() as int) =~= needle@);
    }
    true
}

/// The action the setup takes for the probed machine.
pub open spec fn cuda_plan_spec(distro: Seq<char>, installed: Seq<char>) -> CudaAction {
    if installed.len() > 0 {
        CudaAction::AlreadyInstalled
    } else if contains_seq(distro, "Ubuntu"@) || contains_seq(distro, "Pop"@) {
        CudaAction::AptInstall
    } else if contains_seq(distro, "fedora"@) {
        CudaAction::DnfInstall
    } else {
        CudaAction::Unknown
    }
}

/// Decides the accelerator setup from the probes' output: `installed` is
/// what the driver query printed (trimmed; non-empty means a driver is
/// present), `distro` what the release probe printed. Debian-family
/// distributions install through apt, Fedora through dnf, anything else is
/// reported unknown.
pub fn cuda_plan(distro: &str, installed: &str) -> (r: CudaAction)
    ensures
        r == cuda_plan_spec(distro@, installed@),
{
    if installed.unicode_len() > 0 {
        CudaAction::AlreadyInstalled
    } else if str_contains(distro, "Ubuntu") || str_contains(distro, "Pop") {
        CudaAction::AptInstall
    } else if str_contains(distro, "fedora") {
        CudaAction::DnfInstall
    } else {
        CudaAction::Unknown
    }
}

} // verus!
