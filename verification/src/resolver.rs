use vstd::prelude::*;

verus! {

/// One candidate rule in the ordered backend-location resolution chain.
#[derive(Clone, Copy, PartialEq, Eq, Structural, Debug)]
pub enum Tier {
    /// A fixed development checkout at an absolute path.
    DevAbsolute,
    /// A previously provisioned writable copy under the app-data dir.
    AppDataCopy,
    /// A fresh copy extracted from the packaged template archive.
    ExtractedTemplate,
    /// A directory next to the running executable.
    ExeRelative,
    /// The fixed relative fallback; may not exist at all.
    LastResort,
}

/// Where the resolver stands in the chain.  Every non-`Resolved` state
/// is a request to the host: probe one location (or run the extraction)
/// and report back whether it succeeded.  The chain advances strictly
/// in this order and settles on the first candidate that is there.
#[derive(Clone, Copy, PartialEq, Eq, Structural, Debug)]
pub enum ResolverState {
    /// Does the fixed development checkout exist?
    ProbingDev,
    /// Does a writable app-data copy already exist?
    ProbingAppData,
    /// Is the packaged template archive present in the resources?
    ProbingArchive,
    /// Create the app-data parent and extract the archive; did it work?
    Extracting,
    /// Does the directory next to the executable exist?
    ProbingExeRelative,
    /// The chain has settled on this tier.
    Resolved(Tier),
}

/// The deployment facts the five requests would report, fixed for one
/// resolution run.  `extraction_succeeds` stands for what the one-time
/// extraction would do if it were attempted.
pub struct CandidateWorld {
    pub dev_absolute_exists: bool,
    pub app_data_copy_exists: bool,
    pub template_archive_present: bool,
    pub extraction_succeeds: bool,
    pub exe_relative_exists: bool,
}

/// Whether a tier can win in the given world.  The last resort is not a
/// candidate: it is what is returned when no candidate is available.
pub open spec fn tier_available(w: CandidateWorld, t: Tier) -> bool {
    match t {
        Tier::DevAbsolute => w.dev_absolute_exists,
        Tier::AppDataCopy => w.app_data_copy_exists,
        Tier::ExtractedTemplate => w.template_archive_present && w.extraction_succeeds,
        Tier::ExeRelative => w.exe_relative_exists,
        Tier::LastResort => false,
    }
}

/// The tier the chain settles on in a given world: the first available
/// candidate wins; with none available, the fixed last resort.
pub open spec fn resolved_tier(w: CandidateWorld) -> Tier {
    if w.dev_absolute_exists {
        Tier::DevAbsolute
    } else if w.app_data_copy_exists {
        Tier::AppDataCopy
    } else if w.template_archive_present && w.extraction_succeeds {
        Tier::ExtractedTemplate
    } else if w.exe_relative_exists {
        Tier::ExeRelative
    } else {
        Tier::LastResort
    }
}

/// One transition of the chain: `outcome` answers the pending request.
/// A miss advances to the next tier; an extraction failure is a miss,
/// not an error.  A settled chain stays settled.
pub open spec fn spec_step(s: ResolverState, outcome: bool) -> ResolverState {
    match s {
        ResolverState::ProbingDev => if outcome {
            ResolverState::Resolved(Tier::DevAbsolute)
        } else {
            ResolverState::ProbingAppData
        },
        ResolverState::ProbingAppData => if outcome {
            ResolverState::Resolved(Tier::AppDataCopy)
        } else {
            ResolverState::ProbingArchive
        },
        ResolverState::ProbingArchive => if outcome {
            ResolverState::Extracting
        } else {
            ResolverState::ProbingExeRelative
        },
        ResolverState::Extracting => if outcome {
            ResolverState::Resolved(Tier::ExtractedTemplate)
        } else {
            ResolverState::ProbingExeRelative
        },
        ResolverState::ProbingExeRelative => if outcome {
            ResolverState::Resolved(Tier::ExeRelative)
        } else {
            ResolverState::Resolved(Tier::LastResort)
        },
        ResolverState::Resolved(t) => ResolverState::Resolved(t),
    }
}

/// The chain starts at its highest-priority candidate.
pub fn resolver_start() -> (s: ResolverState)
    ensures
        s == ResolverState::ProbingDev,
{
    ResolverState::ProbingDev
}

/// Advance the chain by one answered request.
pub fn resolver_step(s: ResolverState, outcome: bool) -> (next: ResolverState)
    ensures
        next == spec_step(s, outcome),
{
    match s {
        ResolverState::ProbingDev => if outcome {
            ResolverState::Resolved(Tier::DevAbsolute)
        } else {
            ResolverState::ProbingAppData
        },
        ResolverState::ProbingAppData => if outcome {
            ResolverState::Resolved(Tier::AppDataCopy)
        } else {
            ResolverState::ProbingArchive
        },
        ResolverState::ProbingArchive => if outcome {
            ResolverState::Extracting
        } else {
            ResolverState::ProbingExeRelative
        },
        ResolverState::Extracting => if outcome {
            ResolverState::Resolved(Tier::ExtractedTemplate)
        } else {
            ResolverState::ProbingExeRelative
        },
        ResolverState::ProbingExeRelative => if outcome {
            ResolverState::Resolved(Tier::ExeRelative)
        } else {
            ResolverState::Resolved(Tier::LastResort)
        },
        ResolverState::Resolved(t) => ResolverState::Resolved(t),
    }
}

/// The answer a faithful host gives to the pending request in state `s`
/// when the deployment facts are `w`.
pub open spec fn world_answer(s: ResolverState, w: CandidateWorld) -> bool {
    match s {
        ResolverState::ProbingDev => w.dev_absolute_exists,
        ResolverState::ProbingAppData => w.app_data_copy_exists,
        ResolverState::ProbingArchive => w.template_archive_present,
        ResolverState::Extracting => w.extraction_succeeds,
        ResolverState::ProbingExeRelative => w.exe_relative_exists,
        ResolverState::Resolved(_) => true,
    }
}

/// `n` faithfully answered transitions from `s` in world `w`.
pub open spec fn run_steps(s: ResolverState, w: CandidateWorld, n: nat) -> ResolverState
    decreases n,
{
    if n == 0 {
        s
    } else {
        run_steps(spec_step(s, world_answer(s, w)), w, (n - 1) as nat)
    }
}

/// A settled chain never moves again, however many answers follow.
proof fn lemma_resolved_is_final(t: Tier, w: CandidateWorld, n: nat)
    ensures
        run_steps(ResolverState::Resolved(t), w, n) == ResolverState::Resolved(t),
    decreases n,
{
    if n > 0 {
        lemma_resolved_is_final(t, w, (n - 1) as nat);
    }
}

/// Against fixed deployment facts, the chain settles within five
/// answered requests, and on exactly the first available candidate —
/// whatever the state of the lower-priority ones.
pub proof fn lemma_resolution_follows_priority(w: CandidateWorld, n: nat)
    requires
        n >= 5,
    ensures
        run_steps(ResolverState::ProbingDev, w, n) == ResolverState::Resolved(resolved_tier(w)),
    decreases n,
{
    if n > 5 {
        lemma_resolution_follows_priority(w, (n - 1) as nat);
        lemma_resolved_is_final(resolved_tier(w), w, 1);
        assert(run_steps(ResolverState::ProbingDev, w, n) == run_steps(
            run_steps(ResolverState::ProbingDev, w, (n - 1) as nat),
            w,
            1,
        )) by {
            lemma_run_steps_split(ResolverState::ProbingDev, w, (n - 1) as nat);
        }
    } else {
        reveal_with_fuel(run_steps, 6);
    }
}

/// Splitting a run: `n + 1` steps are `n` steps followed by one more.
proof fn lemma_run_steps_split(s: ResolverState, w: CandidateWorld, n: nat)
    ensures
        run_steps(s, w, n + 1) == run_steps(run_steps(s, w, n), w, 1),
    decreases n,
{
    if n > 0 {
        lemma_run_steps_split(spec_step(s, world_answer(s, w)), w, (n - 1) as nat);
    }
}

/// Where exactly one candidate tier is available, resolution settles on
/// exactly that one, regardless of the state of the others.
pub proof fn lemma_exactly_one_candidate_wins(w: CandidateWorld, t: Tier, n: nat)
    requires
        n >= 5,
        tier_available(w, t),
        forall|u: Tier| u != t ==> !tier_available(w, u),
    ensures
        run_steps(ResolverState::ProbingDev, w, n) == ResolverState::Resolved(t),
{
    lemma_resolution_follows_priority(w, n);
    assert(!tier_available(w, Tier::DevAbsolute) || t == Tier::DevAbsolute);
    assert(!tier_available(w, Tier::AppDataCopy) || t == Tier::AppDataCopy);
    assert(!tier_available(w, Tier::ExtractedTemplate) || t == Tier::ExtractedTemplate);
    assert(!tier_available(w, Tier::ExeRelative) || t == Tier::ExeRelative);
}

/// With no candidate available at all, resolution settles on the fixed
/// last-resort relative path.
pub proof fn lemma_no_candidate_gives_last_resort(w: CandidateWorld, n: nat)
    requires
        n >= 5,
        forall|u: Tier| !tier_available(w, u),
    ensures
        run_steps(ResolverState::ProbingDev, w, n) == ResolverState::Resolved(Tier::LastResort),
{
    lemma_resolution_follows_priority(w, n);
    assert(!tier_available(w, Tier::DevAbsolute));
    assert(!tier_available(w, Tier::AppDataCopy));
    assert(!tier_available(w, Tier::ExtractedTemplate));
    assert(!tier_available(w, Tier::ExeRelative));
}

/// States from which, with a writable copy already on disk, the chain
/// can never reach the extraction step.
spec fn extraction_out_of_reach(s: ResolverState) -> bool {
    s == ResolverState::ProbingDev || s == ResolverState::ProbingAppData || (s matches
    ResolverState::Resolved(_))
}

proof fn lemma_extraction_stays_out_of_reach(s: ResolverState, w: CandidateWorld, n: nat)
    requires
        w.app_data_copy_exists,
        extraction_out_of_reach(s),
    ensures
        extraction_out_of_reach(run_steps(s, w, n)),
    decreases n,
{
    if n > 0 {
        lemma_extraction_stays_out_of_reach(
            spec_step(s, world_answer(s, w)),
            w,
            (n - 1) as nat,
        );
    }
}

/// If a writable app-data copy already exists, resolution never
/// attempts extraction — even if a template archive is also present:
/// the writable copy is probed, and wins, before the archive is looked
/// at.
pub proof fn lemma_existing_copy_skips_extraction(w: CandidateWorld, n: nat)
    requires
        w.app_data_copy_exists,
    ensures
        run_steps(ResolverState::ProbingDev, w, n) != ResolverState::Extracting,
{
    lemma_extraction_stays_out_of_reach(ResolverState::ProbingDev, w, n);
}

/// The host-supplied directories that anchor the candidate paths.  Each
/// is the result of a lookup that can fail: a missing app-data dir gets
/// a fixed relative stand-in, a missing resources or executable dir
/// just disables the tier that depends on it.
pub struct ResolutionContext {
    /// The per-user writable application-data directory.
    pub app_data_dir: Option<String>,
    /// The application's bundled-resources directory.
    pub resource_dir: Option<String>,
    /// The directory holding the running executable.
    pub exe_dir: Option<String>,
}

/// The writable backend copy lives under the app-data directory; with
/// no app-data directory available, under a fixed relative stand-in.
pub open spec fn spec_app_data_backend(app_data_dir: Option<String>) -> Seq<char> {
    match app_data_dir {
        Some(d) => d@ + "/backend"@,
        None => "backend/backend"@,
    }
}

/// The directory the writable backend copy lives in (and is extracted
/// into): the app-data directory itself, or its fixed stand-in.
pub open spec fn spec_extraction_parent(app_data_dir: Option<String>) -> Seq<char> {
    match app_data_dir {
        Some(d) => d@,
        None => "backend"@,
    }
}

/// The fixed development checkout probed first.
pub fn dev_absolute_path() -> (p: String)
    ensures
        p@ == "/Users/steve/dev/web/deadball-web/backend"@,
{
    String::from_str("/Users/steve/dev/web/deadball-web/backend")
}

/// The writable app-data copy of the backend.
pub fn app_data_backend_dir(app_data_dir: &Option<String>) -> (p: String)
    ensures
        p@ == spec_app_data_backend(*app_data_dir),
{
    match app_data_dir {
        Some(d) => String::from_str(d.as_str()).concat("/backend"),
        None => String::from_str("backend/backend"),
    }
}

/// The directory extraction unpacks into; the host creates it first.
pub fn extraction_parent_dir(app_data_dir: &Option<String>) -> (p: String)
    ensures
        p@ == spec_extraction_parent(*app_data_dir),
{
    match app_data_dir {
        Some(d) => String::from_str(d.as_str()),
        None => String::from_str("backend"),
    }
}

/// The packaged template archive, if a resources directory exists at
/// all; the archive is named by convention.
pub fn template_archive_path(resource_dir: &Option<String>) -> (p: Option<String>)
    ensures
        resource_dir is None <==> p is None,
        (resource_dir matches Some(d) ==> (p matches Some(a) && a@ == d@
            + "/backend-template.tar.gz"@)),
{
    match resource_dir {
        Some(d) => Some(String::from_str(d.as_str()).concat("/backend-template.tar.gz")),
        None => None,
    }
}

/// The directory next to the running executable, if the executable's
/// own location is known.
pub fn exe_relative_path(exe_dir: &Option<String>) -> (p: Option<String>)
    ensures
        exe_dir is None <==> p is None,
        (exe_dir matches Some(d) ==> (p matches Some(r) && r@ == d@ + "/../backend"@)),
{
    match exe_dir {
        Some(d) => Some(String::from_str(d.as_str()).concat("/../backend")),
        None => None,
    }
}

/// The fixed relative fallback returned when no candidate exists.
pub fn last_resort_path() -> (p: String)
    ensures
        p@ == "../backend"@,
{
    String::from_str("../backend")
}

/// The working directory each tier stands for.  Resolution never fails:
/// even the last resort is a concrete path, though callers must treat a
/// nonexistent result as a hard startup error once spawn is attempted.
/// The exe-relative tier with no known executable directory falls to
/// the last resort; the chain cannot settle there without one, since
/// the probe that led to it needed the directory to exist.
pub fn location_for_tier(t: Tier, ctx: &ResolutionContext) -> (p: String)
    ensures
        t == Tier::DevAbsolute ==> p@ == "/Users/steve/dev/web/deadball-web/backend"@,
        t == Tier::AppDataCopy || t == Tier::ExtractedTemplate ==> p@ == spec_app_data_backend(
            ctx.app_data_dir,
        ),
        t == Tier::ExeRelative ==> (match ctx.exe_dir {
            Some(d) => p@ == d@ + "/../backend"@,
            None => p@ == "../backend"@,
        }),
        t == Tier::LastResort ==> p@ == "../backend"@,
{
    match t {
        Tier::DevAbsolute => dev_absolute_path(),
        Tier::AppDataCopy => app_data_backend_dir(&ctx.app_data_dir),
        Tier::ExtractedTemplate => app_data_backend_dir(&ctx.app_data_dir),
        Tier::ExeRelative => match &ctx.exe_dir {
            Some(d) => String::from_str(d.as_str()).concat("/../backend"),
            None => last_resort_path(),
        },
        Tier::LastResort => last_resort_path(),
    }
}

/// The diagnostics line recorded for a settled tier, naming the
/// decision and the location it produced.
pub fn tier_log_line(t: Tier, location: &str) -> (m: String)
    ensures
        t == Tier::DevAbsolute ==> m@ == "Using dev backend path: "@ + location@,
        t == Tier::AppDataCopy ==> m@ == "Using existing app data backend: "@ + location@,
        t == Tier::ExtractedTemplate ==> m@ == "Extracted backend template to app data: "@
            + location@,
        t == Tier::ExeRelative ==> m@ == "Using dev-relative backend path next to executable: "@
            + location@,
        t == Tier::LastResort ==> m@ == "Falling back to "@ + location@,
{
    match t {
        Tier::DevAbsolute => String::from_str("Using dev backend path: ").concat(location),
        Tier::AppDataCopy => String::from_str("Using existing app data backend: ").concat(
            location,
        ),
        Tier::ExtractedTemplate => String::from_str(
            "Extracted backend template to app data: ",
        ).concat(location),
        Tier::ExeRelative => String::from_str(
            "Using dev-relative backend path next to executable: ",
        ).concat(location),
        Tier::LastResort => String::from_str("Falling back to ").concat(location),
    }
}

} // verus!

