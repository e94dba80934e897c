//! Composition of the compiler invocation.
//!
//! A build request carries the caller's passthrough arguments. The compiler
//! is always invoked with machine-readable diagnostics and the binary output
//! target; unless one of the caller's arguments already overrides the build
//! profile, the optimized release profile is appended by default.

use vstd::prelude::*;
use vstd::string::StringExecFns;
use crate::text::str_has_prefix;

verus! {

/// Whether an argument overrides the build profile: a recognized
/// profile-override flag, by prefix match.
pub open spec fn is_profile_flag(arg: Seq<char>) -> bool {
    ||| "--profile"@.is_prefix_of(arg)
    ||| "-r"@.is_prefix_of(arg)
    ||| "--release"@.is_prefix_of(arg)
}

/// Whether a request builds with the default optimized profile: none of its
/// arguments overrides the profile.
pub open spec fn release_by_default(args: Seq<Seq<char>>) -> bool {
    forall|i: int| 0 <= i < args.len() ==> !is_profile_flag(args[i])
}

/// The arguments the compiler is always invoked with: the build task, the
/// binary output target, and machine-readable diagnostics.
pub open spec fn base_args() -> Seq<Seq<char>> {
    seq![
        "build"@,
        "--target=wasm32-unknown-unknown"@,
        "--message-format=json-render-diagnostics"@,
    ]
}

/// The full compiler invocation for the given passthrough arguments: the
/// base arguments, then the default release flag unless an argument already
/// overrides the profile, then the passthrough arguments in order.
pub open spec fn composed_args(extra: Seq<Seq<char>>) -> Seq<Seq<char>> {
    if release_by_default(extra) {
        base_args().push("--release"@) + extra
    } else {
        base_args() + extra
    }
}

/// The default optimized profile is appended exactly when no passthrough
/// argument overrides the profile: with an override, the invocation is the
/// base arguments followed by the passthrough arguments unchanged; without
/// one, the release flag stands between them.
pub proof fn lemma_default_profile_appended_iff_not_overridden(extra: Seq<Seq<char>>)
    ensures
        !release_by_default(extra) ==> composed_args(extra) == base_args() + extra,
        release_by_default(extra) ==> composed_args(extra) == base_args() + seq!["--release"@]
            + extra,
{
    if release_by_default(extra) {
        assert(base_args().push("--release"@) =~= base_args() + seq!["--release"@]);
    }
}

/// Decides whether an argument overrides the build profile.
pub fn is_profile_override(arg: &str) -> (b: bool)
    ensures
        b == is_profile_flag(arg@),
{
    str_has_prefix(arg, "--profile") || str_has_prefix(arg, "-r") || str_has_prefix(
        arg,
        "--release",
    )
}

/// A build request: the caller's passthrough compiler arguments, immutable
/// once constructed.
pub struct BuildRequest {
    extra_args: Vec<String>,
}

impl View for BuildRequest {
    type V = Seq<Seq<char>>;

    closed spec fn view(&self) -> Seq<Seq<char>> {
        self.extra_args.deep_view()
    }
}

impl BuildRequest {
    /// Wraps the caller's passthrough arguments.
    pub fn new(extra_args: Vec<String>) -> (r: BuildRequest)
        ensures
            r@ == extra_args.deep_view(),
    {
        BuildRequest { extra_args }
    }

    /// Whether this request builds with the default optimized profile.
    pub fn is_release_profile(&self) -> (b: bool)
        ensures
            b == release_by_default(self@),
    {
        let mut i: usize = 0;
        while i < self.extra_args.len()
            invariant
                forall|j: int| 0 <= j < i ==> !is_profile_flag(self@[j]),
                0 <= i <= self.extra_args@.len(),
                self@ == self.extra_args.deep_view(),
            decreases self.extra_args@.len() - i,
        {
            proof {
                assert(self@[i as int] == self.extra_args@[i as int]@);
            }
            if is_profile_override(self.extra_args[i].as_str()) {
                return false;
            }
            i = i + 1;
        }
        true
    }

    /// The full compiler invocation for this request.
    pub fn compiler_invocation(&self) -> (r: Vec<String>)
        ensures
            r.deep_view() == composed_args(self@),
    {
        let mut r: Vec<String> = Vec::new();
        r.push(String::from_str("build"));
        r.push(String::from_str("--target=wasm32-unknown-unknown"));
        r.push(String::from_str("--message-format=json-render-diagnostics"));
        if self.is_release_profile() {
            r.push(String::from_str("--release"));
            proof {
                assert(r.deep_view() =~~= base_args().push("--release"@));
            }
        } else {
            proof {
                assert(r.deep_view() =~~= base_args());
            }
        }
        let mut i: usize = 0;
        let ghost head = r.deep_view();
        while i < self.extra_args.len()
            invariant
                0 <= i <= self.extra_args@.len(),
                self@ == self.extra_args.deep_view(),
                r.deep_view() == head + self@.take(i as int),
            decreases self.extra_args@.len() - i,
        {
            let ghost old_r = r.deep_view();
            let arg = self.extra_args[i].clone();
            r.push(arg);
            proof {
                assert(r.deep_view() =~~= old_r.push(self@[i as int]));
                assert(old_r.push(self@[i as int]) =~= head + self@.take(i + 1));
            }
            i = i + 1;
        }
        proof {
            assert(self@.take(i as int) =~= self@);
            assert(head + self@ =~= composed_args(self@));
        }
        r
    }
}

} // verus!
