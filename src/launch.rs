//! What a launch of the program, first or second, does with its arguments.
//!
//! The argument after the program name, if there is one, is a candidate path.
//! It is taken only where it names an existing filesystem entry; anything else
//! is no file to open, and is no error.
use vstd::prelude::*;
use crate::deferred::DeferredPush;
use crate::deferred::PushState;
use crate::deferred::OPEN_FILE_DELAY_MS;
use crate::pending::pulled;
use crate::pending::PendingFile;

verus! {

/// The candidate path in an argument list: the second argument, if present.
pub open spec fn launch_candidate(args: Seq<Seq<char>>) -> Option<Seq<char>> {
    if args.len() > 1 {
        Some(args[1])
    } else {
        None
    }
}

/// The path that a launch takes, given whether the candidate exists on disk.
pub open spec fn accepted_path(args: Seq<Seq<char>>, candidate_exists: bool) -> Option<Seq<char>> {
    if candidate_exists {
        launch_candidate(args)
    } else {
        None
    }
}

/// The slot after a launch: the accepted path replaces what it held; with no
/// accepted path it is left as it was.
pub open spec fn slot_after_launch(
    slot: Option<Seq<char>>,
    args: Seq<Seq<char>>,
    candidate_exists: bool,
) -> Option<Seq<char>> {
    match accepted_path(args, candidate_exists) {
        Some(p) => Some(p),
        None => slot,
    }
}

/// The push that a first launch schedules for its accepted path.
pub open spec fn push_for(path: Seq<char>) -> PushState {
    PushState { path, delay_ms: OPEN_FILE_DELAY_MS as nat, delivered: false }
}

/// A startup with fewer than two arguments leaves the initially empty slot
/// empty and schedules no push.
pub proof fn lemma_short_args_capture_nothing(args: Seq<Seq<char>>, candidate_exists: bool)
    requires
        args.len() <= 1,
    ensures
        slot_after_launch(None, args, candidate_exists) is None,
        accepted_path(args, candidate_exists) is None,
{
}

/// After a startup whose second argument names an existing path, the first
/// pull returns that path and the pull right after it returns nothing.
pub proof fn lemma_startup_path_pulled_once(slot: Option<Seq<char>>, args: Seq<Seq<char>>)
    requires
        args.len() > 1,
    ensures
        pulled(slot_after_launch(slot, args, true)).1 == Some(args[1]),
        pulled(pulled(slot_after_launch(slot, args, true)).0).1 is None,
{
}

/// A second launch with an existing path replaces a path still held: a pull
/// then returns only the newest path, once.
pub proof fn lemma_second_launch_replaces_held_path(held: Seq<char>, args: Seq<Seq<char>>)
    requires
        args.len() > 1,
    ensures
        pulled(slot_after_launch(Some(held), args, true)).1 == Some(args[1]),
        pulled(pulled(slot_after_launch(Some(held), args, true)).0).1 is None,
{
}

/// Relies on std::path::Path::exists: whether `path` names an existing
/// filesystem entry. That depends on the disk at the moment of the call, so
/// nothing is stated of the answer.
#[verifier::external_body]
fn path_exists(path: &String) -> (r: bool) {
    std::path::Path::new(path).exists()
}

/// The candidate path in `args`: a copy of the second argument, if present.
pub fn candidate_path(args: &Vec<String>) -> (r: Option<String>)
    ensures
        r.deep_view() == launch_candidate(args.deep_view()),
{
    if args.len() > 1 {
        Some(args[1].clone())
    } else {
        None
    }
}

/// What a second launch asks of the running instance.
pub struct SecondLaunchActions {
    /// A path to push to listeners at once.
    pub open_file: Option<String>,
    /// Whether to show and focus the main window.
    pub raise_window: bool,
}

impl PendingFile {
    /// Takes the startup arguments, given whether their candidate path exists.
    /// An accepted path goes into the slot, and the returned push carries it;
    /// otherwise the slot is left as it was and nothing is scheduled.
    pub fn capture_startup_path_checked(&mut self, args: &Vec<String>, candidate_exists: bool) -> (r:
        Option<DeferredPush>)
        ensures
            final(self)@ == slot_after_launch(old(self)@, args.deep_view(), candidate_exists),
            r is Some <==> accepted_path(args.deep_view(), candidate_exists) is Some,
            r is Some ==> r->0@ == push_for(accepted_path(args.deep_view(), candidate_exists)->0),
    {
        match candidate_path(args) {
            Some(path) => {
                if candidate_exists {
                    let push = DeferredPush::new(path.clone());
                    self.store(path);
                    Some(push)
                } else {
                    None
                }
            },
            None => None,
        }
    }

    /// Takes the startup arguments and checks on disk whether their candidate
    /// path exists. With fewer than two arguments nothing changes; otherwise
    /// the result is that of `capture_startup_path_checked` for one of the two
    /// answers of the disk.
    pub fn capture_startup_path(&mut self, args: &Vec<String>) -> (r: Option<DeferredPush>)
        ensures
            exists|found: bool|
                {
                    &&& final(self)@ == slot_after_launch(old(self)@, args.deep_view(), found)
                    &&& r is Some <==> accepted_path(args.deep_view(), found) is Some
                    &&& r is Some ==> r->0@ == push_for(accepted_path(args.deep_view(), found)->0)
                },
            args@.len() <= 1 ==> final(self)@ == old(self)@ && r is None,
    {
        let found = args.len() > 1 && path_exists(&args[1]);
        self.capture_startup_path_checked(args, found)
    }

    /// Takes the arguments of a second launch, given whether their candidate
    /// path exists. An accepted path replaces what the slot held and is to be
    /// pushed at once; the main window is raised in every case.
    pub fn on_second_launch_checked(&mut self, args: &Vec<String>, candidate_exists: bool) -> (r:
        SecondLaunchActions)
        ensures
            final(self)@ == slot_after_launch(old(self)@, args.deep_view(), candidate_exists),
            r.open_file.deep_view() == accepted_path(args.deep_view(), candidate_exists),
            r.raise_window,
    {
        let open_file = match candidate_path(args) {
            Some(path) => {
                if candidate_exists {
                    self.store(path.clone());
                    Some(path)
                } else {
                    None
                }
            },
            None => None,
        };
        SecondLaunchActions { open_file, raise_window: true }
    }

    /// Takes the arguments of a second launch and checks on disk whether their
    /// candidate path exists; the result is that of `on_second_launch_checked`
    /// for one of the two answers of the disk.
    pub fn on_second_launch(&mut self, args: &Vec<String>) -> (r: SecondLaunchActions)
        ensures
            exists|found: bool|
                {
                    &&& final(self)@ == slot_after_launch(old(self)@, args.deep_view(), found)
                    &&& r.open_file.deep_view() == accepted_path(args.deep_view(), found)
                },
            args@.len() <= 1 ==> final(self)@ == old(self)@ && r.open_file is None,
            r.raise_window,
    {
        let found = args.len() > 1 && path_exists(&args[1]);
        self.on_second_launch_checked(args, found)
    }
}

} // verus!
