//! Creation and scoped ownership of uniquely named temporary directories.
//!
//! The crate models directory paths as plain strings. It provides the pieces
//! that a host program wires to the real environment and filesystem: a
//! resolver for the platform temporary root, a random name generator, an
//! allocator that decides each step of the create-or-retry protocol, and the
//! owning [`TempDir`] handle.

use rand::distr::SampleString;
use vstd::prelude::*;

verus! {

broadcast use vstd::string::group_string_axioms;

/// A failure cause as a filesystem or environment provider reports it.
///
/// The host program translates whatever error its platform hands back into
/// one of these plain tags before handing it to the library.
#[derive(Clone, Copy, Debug, PartialEq, Eq, Structural)]
pub enum ProviderErrorKind {
    NotFound,
    PermissionDenied,
    AlreadyExists,
    ConnectionRefused,
    ConnectionReset,
    ConnectionAborted,
    NotConnected,
    BrokenPipe,
    WouldBlock,
    InvalidInput,
    InvalidData,
    TimedOut,
    WriteZero,
    Interrupted,
    Unsupported,
    UnexpectedEof,
    OutOfMemory,
    Other,
}

/// The classification of an [`Error`], without its payload.
#[derive(Clone, Copy, Debug, PartialEq, Eq, Structural)]
pub enum ErrorKind {
    EnvironmentLookupFailed,
    AlreadyExists,
    PermissionDenied,
    PathDoesNotExist,
    RetryBudgetExhausted,
    OtherFilesystem,
}

/// An error surfaced to the caller of an allocation or removal operation.
#[derive(Clone, Debug)]
pub enum Error {
    /// The current working directory could not be retrieved.
    EnvironmentLookupFailed,
    /// The path already exists.
    AlreadyExists,
    /// Permission was denied by the filesystem.
    PermissionDenied,
    /// A component of the path does not exist.
    PathDoesNotExist,
    /// The retry budget ran out without finding a free name.
    RetryBudgetExhausted,
    /// Any other filesystem failure, with the provider's cause and message.
    OtherFilesystem(ProviderErrorKind, String),
}

impl Error {
    /// The classification of this error.
    pub open spec fn spec_kind(&self) -> ErrorKind {
        match self {
            Error::EnvironmentLookupFailed => ErrorKind::EnvironmentLookupFailed,
            Error::AlreadyExists => ErrorKind::AlreadyExists,
            Error::PermissionDenied => ErrorKind::PermissionDenied,
            Error::PathDoesNotExist => ErrorKind::PathDoesNotExist,
            Error::RetryBudgetExhausted => ErrorKind::RetryBudgetExhausted,
            Error::OtherFilesystem(_, _) => ErrorKind::OtherFilesystem,
        }
    }

    /// Report the classification of this error.
    pub fn kind(&self) -> (k: ErrorKind)
        ensures
            k == self.spec_kind(),
    {
        match self {
            Error::EnvironmentLookupFailed => ErrorKind::EnvironmentLookupFailed,
            Error::AlreadyExists => ErrorKind::AlreadyExists,
            Error::PermissionDenied => ErrorKind::PermissionDenied,
            Error::PathDoesNotExist => ErrorKind::PathDoesNotExist,
            Error::RetryBudgetExhausted => ErrorKind::RetryBudgetExhausted,
            Error::OtherFilesystem(_, _) => ErrorKind::OtherFilesystem,
        }
    }
}

/// `e` is exactly the library error that stands for a provider failure with
/// cause `k` and message `m`: the three causes the allocation and removal
/// protocol distinguishes get their named kind, and everything else keeps its
/// cause and message verbatim.
pub open spec fn is_error_for(e: Error, k: ProviderErrorKind, m: Seq<char>) -> bool {
    match k {
        ProviderErrorKind::NotFound => e is PathDoesNotExist,
        ProviderErrorKind::PermissionDenied => e is PermissionDenied,
        ProviderErrorKind::AlreadyExists => e is AlreadyExists,
        _ => e matches Error::OtherFilesystem(pk, msg) && pk == k && msg@ == m,
    }
}

/// Translate a provider failure into the library's error, keeping the cause
/// and message for the failures that have no named kind of their own.
pub fn to_new_error(kind: ProviderErrorKind, message: String) -> (e: Error)
    ensures
        is_error_for(e, kind, message@),
{
    match kind {
        ProviderErrorKind::NotFound => Error::PathDoesNotExist,
        ProviderErrorKind::PermissionDenied => Error::PermissionDenied,
        ProviderErrorKind::AlreadyExists => Error::AlreadyExists,
        ProviderErrorKind::ConnectionRefused => Error::OtherFilesystem(kind, message),
        ProviderErrorKind::ConnectionReset => Error::OtherFilesystem(kind, message),
        ProviderErrorKind::ConnectionAborted => Error::OtherFilesystem(kind, message),
        ProviderErrorKind::NotConnected => Error::OtherFilesystem(kind, message),
        ProviderErrorKind::BrokenPipe => Error::OtherFilesystem(kind, message),
        ProviderErrorKind::WouldBlock => Error::OtherFilesystem(kind, message),
        ProviderErrorKind::InvalidInput => Error::OtherFilesystem(kind, message),
        ProviderErrorKind::InvalidData => Error::OtherFilesystem(kind, message),
        ProviderErrorKind::TimedOut => Error::OtherFilesystem(kind, message),
        ProviderErrorKind::WriteZero => Error::OtherFilesystem(kind, message),
        ProviderErrorKind::Interrupted => Error::OtherFilesystem(kind, message),
        ProviderErrorKind::Unsupported => Error::OtherFilesystem(kind, message),
        ProviderErrorKind::UnexpectedEof => Error::OtherFilesystem(kind, message),
        ProviderErrorKind::OutOfMemory => Error::OtherFilesystem(kind, message),
        ProviderErrorKind::Other => Error::OtherFilesystem(kind, message),
    }
}

/// A character of the restricted alphabet used for random directory names:
/// an ASCII letter or digit.
pub open spec fn is_alphanumeric_char(c: char) -> bool {
    ||| 'a' as u32 <= c as u32 <= 'z' as u32
    ||| 'A' as u32 <= c as u32 <= 'Z' as u32
    ||| '0' as u32 <= c as u32 <= '9' as u32
}

/// Every character of `s` is an ASCII letter or digit.
pub open spec fn is_alphanumeric_seq(s: Seq<char>) -> bool {
    forall|i: int| 0 <= i < s.len() ==> is_alphanumeric_char(s[i])
}

/// An environment variable's value counts only when it is present and
/// non-empty: an empty value must behave exactly like an absent one.
pub open spec fn is_usable_var(v: Option<Seq<char>>) -> bool {
    v matches Some(s) && s.len() > 0
}

/// The first present, non-empty value in `vars`, or `default` when there is
/// none: the data-driven priority chain behind every platform's temp-root
/// lookup.
pub open spec fn spec_resolve_chain(vars: Seq<Option<Seq<char>>>, default: Seq<char>) -> Seq<char>
    decreases vars.len(),
{
    if vars.len() == 0 {
        default
    } else if is_usable_var(vars[0]) {
        vars[0]->0
    } else {
        spec_resolve_chain(vars.drop_first(), default)
    }
}

/// Walk a priority chain of environment variable values: the first present,
/// non-empty value wins, and `default` stands when none does.
pub fn resolve_chain(vars: &Vec<Option<String>>, default: String) -> (r: String)
    ensures
        r@ == spec_resolve_chain(vars.deep_view(), default@),
{
    let ghost all: Seq<Option<Seq<char>>> = vars.deep_view();
    proof {
        assert(all.skip(0) =~= all);
    }
    let mut i: usize = 0;
    while i < vars.len()
        invariant
            0 <= i <= vars.len(),
            all == vars.deep_view(),
            all.len() == vars.len(),
            spec_resolve_chain(all.skip(i as int), default@) == spec_resolve_chain(all, default@),
        decreases vars.len() - i,
    {
        proof {
            assert(all.skip(i as int)[0] == all[i as int]);
        }
        match &vars[i] {
            Some(v) => {
                if v.as_str().unicode_len() > 0 {
                    return v.clone();
                }
            },
            None => {},
        }
        proof {
            assert(all.skip(i as int).drop_first() =~= all.skip(i + 1));
        }
        i = i + 1;
    }
    proof {
        assert(all.skip(i as int) =~= Seq::<Option<Seq<char>>>::empty());
    }
    default
}

/// Resolve the temporary root on a Unix-like platform: `tmpdir` is the value
/// of the `TMPDIR` variable, and the default is `/data/local/tmp` on mobile
/// platforms without a shared temp area, `/tmp` elsewhere.
pub fn resolve_unix(tmpdir: Option<String>, mobile: bool) -> (r: String)
    ensures
        is_usable_var(tmpdir.deep_view()) ==> r@ == tmpdir->0@,
        !is_usable_var(tmpdir.deep_view()) && mobile ==> r@ == "/data/local/tmp"@,
        !is_usable_var(tmpdir.deep_view()) && !mobile ==> r@ == "/tmp"@,
{
    let default: String = if mobile {
        "/data/local/tmp".to_owned()
    } else {
        "/tmp".to_owned()
    };
    proof {
        reveal_strlit("/tmp");
        reveal_strlit("/data/local/tmp");
    }
    let ghost default_chars: Seq<char> = default@;
    let ghost var_view: Option<Seq<char>> = tmpdir.deep_view();
    let mut vars: Vec<Option<String>> = Vec::new();
    vars.push(tmpdir);
    let r = resolve_chain(&vars, default);
    proof {
        assert(vars.deep_view() =~= seq![var_view]);
        if !is_usable_var(var_view) {
            assert(seq![var_view].drop_first() =~= Seq::<Option<Seq<char>>>::empty());
            assert(spec_resolve_chain(Seq::<Option<Seq<char>>>::empty(), default_chars)
                == default_chars);
            assert(r@ == default_chars);
        }
    }
    r
}

/// Resolve the temporary root on a Windows-like platform: the values of
/// `TMP`, `TEMP`, `USERPROFILE` and the windows-install-root variable are
/// consulted in that priority order, with the system directory as the
/// terminal default.
pub fn resolve_windows(
    tmp: Option<String>,
    temp: Option<String>,
    userprofile: Option<String>,
    windir: Option<String>,
) -> (r: String)
    ensures
        r@ == spec_resolve_chain(
            seq![tmp.deep_view(), temp.deep_view(), userprofile.deep_view(), windir.deep_view()],
            "C:\\Windows"@,
        ),
{
    let default: String = "C:\\Windows".to_owned();
    let mut vars: Vec<Option<String>> = Vec::new();
    vars.push(tmp);
    vars.push(temp);
    vars.push(userprofile);
    vars.push(windir);
    proof {
        assert(vars.deep_view() =~= seq![
            tmp.deep_view(),
            temp.deep_view(),
            userprofile.deep_view(),
            windir.deep_view(),
        ]);
    }
    resolve_chain(&vars, default)
}

/// Law: an empty environment variable value behaves exactly like an absent
/// one — replacing an empty value by absence never changes what the priority
/// chain resolves to.
pub proof fn lemma_empty_var_like_absent(
    vars: Seq<Option<Seq<char>>>,
    i: int,
    default: Seq<char>,
)
    requires
        0 <= i < vars.len(),
        vars[i] matches Some(s) && s.len() == 0,
    ensures
        spec_resolve_chain(vars, default) == spec_resolve_chain(vars.update(i, None), default),
    decreases vars.len(),
{
    let updated = vars.update(i, None);
    if i == 0 {
        assert(updated.drop_first() =~= vars.drop_first());
    } else {
        assert(updated[0] == vars[0]);
        assert(updated.drop_first() =~= vars.drop_first().update(i - 1, None));
        if !is_usable_var(vars[0]) {
            lemma_empty_var_like_absent(vars.drop_first(), i - 1, default);
        }
    }
}

/// Relies on `rand`'s `Alphanumeric` distribution: `sample_string` returns
/// exactly `len` characters, each drawn from the ASCII letters and digits.
#[verifier::external_body]
fn sample_alphanumeric(len: usize) -> (r: String)
    ensures
        r@.len() == len as nat,
        is_alphanumeric_seq(r@),
{
    rand::distr::Alphanumeric.sample_string(&mut rand::rng(), len)
}

/// Produce a random suffix of exactly `len` ASCII alphanumeric characters.
pub fn generate_suffix(len: usize) -> (r: String)
    ensures
        r@.len() == len as nat,
        is_alphanumeric_seq(r@),
{
    sample_alphanumeric(len)
}

/// The directory name proposed for one attempt: the prefix, a dot and the
/// random suffix — or the suffix alone when the prefix is empty, so the name
/// never starts with the hidden-file marker.
pub open spec fn spec_candidate_name(prefix: Seq<char>, suffix: Seq<char>) -> Seq<char> {
    if prefix.len() == 0 {
        suffix
    } else {
        prefix + "."@ + suffix
    }
}

/// Combine a caller prefix and a random suffix into one candidate directory
/// name.
pub fn candidate_name(prefix: &str, suffix: &str) -> (r: String)
    ensures
        r@ == spec_candidate_name(prefix@, suffix@),
{
    if prefix.is_empty() {
        suffix.to_owned()
    } else {
        let mut name = prefix.to_owned();
        name.append(".");
        name.append(suffix);
        name
    }
}

/// Paths are modeled as Unix-style strings: joining appends the leaf after a
/// separator, unless the root already ends in one.
pub open spec fn spec_join_path(root: Seq<char>, leaf: Seq<char>) -> Seq<char> {
    if root.len() > 0 && root.last() == '/' {
        root + leaf
    } else {
        root + "/"@ + leaf
    }
}

/// Join a directory path and a child name.
pub fn join_path(root: &str, leaf: &str) -> (r: String)
    ensures
        r@ == spec_join_path(root@, leaf@),
{
    let mut joined = root.to_owned();
    if root.is_empty() || root.get_char(root.unicode_len() - 1) != '/' {
        joined.append("/");
    }
    joined.append(leaf);
    joined
}

/// A path is relative when it does not start with the separator. An empty
/// path counts as relative.
pub open spec fn spec_is_relative(p: Seq<char>) -> bool {
    p.len() == 0 || p[0] != '/'
}

/// Decide whether a path is relative.
pub fn is_relative_path(p: &str) -> (r: bool)
    ensures
        r == spec_is_relative(p@),
{
    p.is_empty() || p.get_char(0) != '/'
}

/// Turn a caller-supplied root into an absolute one: an absolute root stands
/// as it is; a relative root is joined onto the current working directory,
/// whose retrieval the host performs and may fail.
pub fn resolve_root(root: String, cwd: Option<String>) -> (r: Result<String, Error>)
    ensures
        !spec_is_relative(root@) ==> (r matches Ok(p) && p@ == root@),
        spec_is_relative(root@) && cwd is Some ==> (r matches Ok(p) && p@ == spec_join_path(
            cwd->0@,
            root@,
        )),
        spec_is_relative(root@) && cwd is None ==> (r matches Err(e)
            && e is EnvironmentLookupFailed),
{
    if is_relative_path(root.as_str()) {
        match cwd {
            Some(base) => Ok(join_path(base.as_str(), root.as_str())),
            None => Err(Error::EnvironmentLookupFailed),
        }
    } else {
        Ok(root)
    }
}

/// `sub` occurs somewhere inside `s` as a contiguous run of characters.
pub open spec fn has_substring(s: Seq<char>, sub: Seq<char>) -> bool {
    exists|i: int|
        0 <= i && i + sub.len() <= s.len() && #[trigger] s.subrange(i, i + sub.len() as int)
            == sub
}

/// Law: for every non-empty prefix, every candidate name carries the prefix
/// as its leading characters, and so does the full path the allocator
/// proposes under any root — the prefix is a substring of both.
pub proof fn lemma_candidate_contains_prefix(root: Seq<char>, prefix: Seq<char>, suffix: Seq<char>)
    requires
        prefix.len() > 0,
    ensures
        spec_candidate_name(prefix, suffix).subrange(0, prefix.len() as int) == prefix,
        has_substring(spec_candidate_name(prefix, suffix), prefix),
        has_substring(spec_join_path(root, spec_candidate_name(prefix, suffix)), prefix),
{
    let name = spec_candidate_name(prefix, suffix);
    assert(name.subrange(0, prefix.len() as int) =~= prefix);
    assert(has_substring(name, prefix)) by {
        assert(name.subrange(0, 0 + prefix.len() as int) == prefix);
    }
    reveal_strlit("/");
    let path = spec_join_path(root, name);
    if root.len() > 0 && root.last() == '/' {
        let i = root.len() as int;
        assert(path.subrange(i, i + prefix.len() as int) =~= prefix);
    } else {
        let i = root.len() + 1;
        assert(path.subrange(i as int, i + prefix.len() as int) =~= prefix);
    }
}

/// The owning handle for a successfully allocated temporary directory.
///
/// A handle is in one of two states: owning its directory's path, or
/// consumed. It starts owning — only a successful allocation constructs one —
/// and becomes consumed exactly once, when the path is taken out: by
/// [`TempDir::into_inner`], which hands the directory's lifetime to the
/// caller, or by [`TempDir::take_path`], which surrenders the path for
/// removal. Consumed is terminal, and path access requires the owning state.
///
/// The handle itself performs no filesystem work: the host program removes
/// the directory at the path the handle surrenders.
pub struct TempDir {
    path: Option<String>,
}

impl TempDir {
    /// The handle still owns its directory.
    pub closed spec fn is_owning(&self) -> bool {
        self.path is Some
    }

    /// The owned directory path, while the handle is owning.
    pub closed spec fn dir_path(&self) -> Seq<char> {
        self.path->0@
    }

    /// Wrap a path whose directory was just created. Only the allocator
    /// constructs handles, so every handle starts in the owning state.
    pub(crate) fn from_created(path: String) -> (d: TempDir)
        ensures
            d.is_owning(),
            d.dir_path() == path@,
    {
        TempDir { path: Some(path) }
    }

    /// Access the owned directory path.
    ///
    /// Access after consumption is a logic error, ruled out by contract.
    pub fn path(&self) -> (r: &String)
        requires
            self.is_owning(),
        ensures
            r@ == self.dir_path(),
    {
        self.path.as_ref().unwrap()
    }

    /// Consume the handle and hand the path out, transferring the
    /// directory's lifetime to the caller: no removal follows from a handle
    /// consumed this way.
    pub fn into_inner(self) -> (r: String)
        requires
            self.is_owning(),
        ensures
            r@ == self.dir_path(),
    {
        self.path.unwrap()
    }

    /// Whether the handle still owns its directory, decided at run time —
    /// for hosts that must check before calling the owning-only operations.
    pub fn is_active(&self) -> (r: bool)
        ensures
            r == self.is_owning(),
    {
        self.path.is_some()
    }

    /// Surrender the owned path for removal, leaving the handle consumed.
    ///
    /// The path comes out at most once: an owning handle yields it and a
    /// consumed one yields nothing, so the removal that follows in the host
    /// is attempted exactly once per directory.
    pub fn take_path(&mut self) -> (r: Option<String>)
        ensures
            !final (self).is_owning(),
            old(self).is_owning() ==> (r matches Some(p) && p@ == old(self).dir_path()),
            !old(self).is_owning() ==> r is None,
    {
        self.path.take()
    }
}

/// How many times the allocator may try a fresh random name before it gives
/// up with the distinguished exhaustion error. Large enough that an attacker
/// runs out of luck before the allocator runs out of patience, yet a fixed
/// bound, so that termination and the exhaustion failure stay representable.
pub const NUM_RETRIES: u32 = 0x8000_0000;

/// How many random characters a candidate name carries. Enough to make
/// pre-creating all names of this length infeasible, without draining the
/// random source needlessly.
pub const NUM_RAND_CHARS: usize = 12;

/// What the filesystem provider reported for one atomic create-if-absent
/// attempt.
pub enum CreateOutcome {
    /// The directory was created; the name was free.
    Created,
    /// The path already existed: the retry trigger.
    AlreadyExists,
    /// Any other failure, with its cause and message.
    Failed(ProviderErrorKind, String),
}

/// What the allocator asks the host to do next.
pub enum AttemptAction {
    /// Atomically create a directory at exactly this path, failing if it
    /// already exists.
    Create(String),
    /// Stop: the retry budget is exhausted.
    GiveUp(Error),
}

/// The allocator's verdict on a finished attempt.
pub enum AttemptResult {
    /// The directory is owned by this handle now.
    Success(TempDir),
    /// The name was taken; ask for the next candidate.
    Retry,
    /// A failure other than a name collision: surface it at once.
    Fail(Error),
}

/// `p` is a path the allocator may propose under `root` for `prefix`: the
/// root joined with a candidate name built from some random suffix of the
/// fixed length and alphabet.
pub open spec fn is_proposed_path(p: Seq<char>, root: Seq<char>, prefix: Seq<char>) -> bool {
    exists|sfx: Seq<char>|
        {
            &&& sfx.len() == NUM_RAND_CHARS
            &&& is_alphanumeric_seq(sfx)
            &&& p == spec_join_path(root, #[trigger] spec_candidate_name(prefix, sfx))
        }
}

/// The decision core of the allocation protocol.
///
/// The host drives it in a loop: [`Allocator::begin_attempt`] hands out the
/// next candidate path (or gives up once the budget is spent), the host
/// performs the atomic create, and [`Allocator::finish_attempt`] turns the
/// reported outcome into a verdict. The allocator itself touches no
/// filesystem, so every decision it makes is verified for every outcome the
/// host can report.
pub struct Allocator {
    root: String,
    prefix: String,
    remaining: u32,
}

impl Allocator {
    /// The absolute root under which candidates are proposed.
    pub closed spec fn spec_root(&self) -> Seq<char> {
        self.root@
    }

    /// The caller-supplied name prefix.
    pub closed spec fn spec_prefix(&self) -> Seq<char> {
        self.prefix@
    }

    /// How many attempts are still allowed.
    pub closed spec fn spec_remaining(&self) -> u32 {
        self.remaining
    }

    /// Set up an allocation under `root` with `prefix`, with the full retry
    /// budget.
    pub fn new(root: String, prefix: String) -> (a: Allocator)
        ensures
            a.spec_root() == root@,
            a.spec_prefix() == prefix@,
            a.spec_remaining() == NUM_RETRIES,
    {
        Allocator { root, prefix, remaining: NUM_RETRIES }
    }

    /// Set up an allocation with an explicit retry budget, so that the
    /// exhaustion path stays reachable without astronomically many attempts.
    pub fn with_budget(root: String, prefix: String, budget: u32) -> (a: Allocator)
        ensures
            a.spec_root() == root@,
            a.spec_prefix() == prefix@,
            a.spec_remaining() == budget,
    {
        Allocator { root, prefix, remaining: budget }
    }

    /// Begin one attempt: spend one unit of the budget and propose a fresh
    /// candidate path, or give up with the distinguished exhaustion error —
    /// and nothing else — once the budget is spent.
    pub fn begin_attempt(&mut self) -> (r: AttemptAction)
        ensures
            final (self).spec_root() == old(self).spec_root(),
            final (self).spec_prefix() == old(self).spec_prefix(),
            old(self).spec_remaining() == 0 ==> (r matches AttemptAction::GiveUp(e)
                && e is RetryBudgetExhausted && final (self).spec_remaining() == 0),
            old(self).spec_remaining() > 0 ==> (r matches AttemptAction::Create(p)
                && is_proposed_path(p@, old(self).spec_root(), old(self).spec_prefix())
                && final (self).spec_remaining() == old(self).spec_remaining() - 1),
    {
        if self.remaining == 0 {
            AttemptAction::GiveUp(Error::RetryBudgetExhausted)
        } else {
            self.remaining = self.remaining - 1;
            let suffix = generate_suffix(NUM_RAND_CHARS);
            let name = candidate_name(self.prefix.as_str(), suffix.as_str());
            let path = join_path(self.root.as_str(), name.as_str());
            proof {
                assert(path@ == spec_join_path(
                    self.root@,
                    spec_candidate_name(self.prefix@, suffix@),
                ));
            }
            AttemptAction::Create(path)
        }
    }

    /// Finish one attempt: a created directory becomes an owning handle for
    /// exactly the candidate path, a name collision asks for a retry, and
    /// any other failure aborts at once with the corresponding error.
    pub fn finish_attempt(candidate: String, outcome: CreateOutcome) -> (r: AttemptResult)
        ensures
            outcome is Created ==> (r matches AttemptResult::Success(d) && d.is_owning()
                && d.dir_path() == candidate@),
            outcome is AlreadyExists ==> r is Retry,
            outcome matches CreateOutcome::Failed(k, m) ==> (r matches AttemptResult::Fail(e)
                && is_error_for(e, k, m@)),
    {
        match outcome {
            CreateOutcome::Created => AttemptResult::Success(TempDir::from_created(candidate)),
            CreateOutcome::AlreadyExists => AttemptResult::Retry,
            CreateOutcome::Failed(kind, message) => AttemptResult::Fail(
                to_new_error(kind, message),
            ),
        }
    }
}

/// Law: a successful allocation under a non-empty prefix yields a handle
/// whose directory name — and whole path — contains the prefix as a
/// substring.
pub proof fn lemma_success_path_contains_prefix(
    root: Seq<char>,
    prefix: Seq<char>,
    p: Seq<char>,
)
    requires
        prefix.len() > 0,
        is_proposed_path(p, root, prefix),
    ensures
        has_substring(p, prefix),
{
    let sfx = choose|sfx: Seq<char>|
        {
            &&& sfx.len() == NUM_RAND_CHARS
            &&& is_alphanumeric_seq(sfx)
            &&& p == spec_join_path(root, #[trigger] spec_candidate_name(prefix, sfx))
        };
    lemma_candidate_contains_prefix(root, prefix, sfx);
}

} // verus!
