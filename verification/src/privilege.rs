//! Getting the rights that touching hardware state takes: whether to go on
//! as the process is, or to start it again under the elevation helper.

use vstd::prelude::*;
use vstd::string::*;
use crate::config::opt_text;
use crate::text::views;

verus! {

/// Marks a process that was started by an elevation attempt already.
pub const ELEVATED_MARKER: &'static str = "PRIME_RS_ELEVATED";

/// Carries the home directory of the user who started the first process.
pub const ORIGINAL_HOME: &'static str = "ORIGINAL_HOME";

/// The helper under which the program is started again.
pub const ELEVATION_HELPER: &'static str = "pkexec";

/// What an elevation attempt comes to.
#[derive(Debug, PartialEq, Eq)]
pub enum Elevation {
    /// The process has the rights already.
    AlreadyPrivileged,
    /// An attempt was made before; go on without the rights.
    AlreadyAttempted,
    /// Set the marker, keep `original_home` if there is one, and replace the
    /// process by the same program under the helper.
    Reexec { original_home: Option<String> },
}

/// Mathematical value of an [`Elevation`].
pub enum ElevationView {
    AlreadyPrivileged,
    AlreadyAttempted,
    Reexec { original_home: Option<Seq<char>> },
}

impl View for Elevation {
    type V = ElevationView;

    open spec fn view(&self) -> ElevationView {
        match self {
            Elevation::AlreadyPrivileged => ElevationView::AlreadyPrivileged,
            Elevation::AlreadyAttempted => ElevationView::AlreadyAttempted,
            Elevation::Reexec { original_home } => ElevationView::Reexec {
                original_home: opt_text(*original_home),
            },
        }
    }
}

impl Elevation {
    /// What the caller of the attempt is told where the process goes on: that
    /// it has the rights, that it has not, or nothing yet while the program
    /// is still to be started again.
    pub fn granted(&self) -> (answer: Option<bool>)
        ensures
            answer == (match self@ {
                ElevationView::AlreadyPrivileged => Some(true),
                ElevationView::AlreadyAttempted => Some(false),
                ElevationView::Reexec { .. } => None::<bool>,
            }),
    {
        match self {
            Elevation::AlreadyPrivileged => Some(true),
            Elevation::AlreadyAttempted => Some(false),
            Elevation::Reexec { .. } => None,
        }
    }
}

/// Decides on privilege elevation.
pub struct Privilege;

impl Privilege {
    /// The decision: a privileged process goes on; one that carries the
    /// marker goes on without the rights and does not try again; any other
    /// is started again under the helper, with the user's home kept.
    pub open spec fn decision(is_root: bool, marker_present: bool, home: Option<Seq<char>>)
        -> ElevationView {
        if is_root {
            ElevationView::AlreadyPrivileged
        } else if marker_present {
            ElevationView::AlreadyAttempted
        } else {
            ElevationView::Reexec { original_home: home }
        }
    }

    /// The command line that starts the program again: the helper, the
    /// program, then the arguments that the program was given. `args` begins
    /// with the name the program was called by, which is left out.
    pub open spec fn helper_command(exe: Seq<char>, args: Seq<Seq<char>>) -> Seq<Seq<char>> {
        seq![ELEVATION_HELPER@, exe] + (if args.len() > 0 {
            args.drop_first()
        } else {
            args
        })
    }

    /// `nix::unistd::Uid::effective` and `Uid::is_root`: whether the
    /// effective user of this process is root. The answer is the operating
    /// system's, so nothing is claimed of it.
    #[verifier::external_body]
    pub fn is_root() -> (root: bool) {
        nix::unistd::Uid::effective().is_root()
    }

    /// Decides from what the caller has found out about the process.
    pub fn decide(is_root: bool, marker_present: bool, home: Option<String>) -> (plan: Elevation)
        ensures
            plan@ == Privilege::decision(is_root, marker_present, opt_text(home)),
    {
        if is_root {
            Elevation::AlreadyPrivileged
        } else if marker_present {
            Elevation::AlreadyAttempted
        } else {
            Elevation::Reexec { original_home: home }
        }
    }

    /// Decides on elevation for this process. `marker_present` tells whether
    /// the marker is set in its environment, `home` is the user's home
    /// directory if it is known. Whether the process is privileged is asked
    /// of the operating system, so the plan is the decision for one of the two
    /// answers.
    pub fn try_elevate(marker_present: bool, home: Option<String>) -> (plan: Elevation)
        ensures
            plan@ == Privilege::decision(true, marker_present, opt_text(home)) || plan@
                == Privilege::decision(false, marker_present, opt_text(home)),
    {
        let root = Privilege::is_root();
        Privilege::decide(root, marker_present, home)
    }

    /// Builds the command line that starts `exe` again under the helper.
    pub fn run_pkexec(exe: &str, args: &Vec<String>) -> (command: Vec<String>)
        ensures
            views(command@) == Privilege::helper_command(exe@, views(args@)),
    {
        let mut command: Vec<String> = Vec::new();
        command.push(String::from_str(ELEVATION_HELPER));
        command.push(String::from_str(exe));
        let mut i: usize = 1;
        while i < args.len()
            invariant
                1 <= i,
                args@.len() > 0 ==> i <= args@.len(),
                command@.len() == 2 + (if args@.len() > 0 {
                    i - 1
                } else {
                    0
                }),
                command@[0]@ == ELEVATION_HELPER@,
                command@[1]@ == exe@,
                forall|j: int| 1 <= j < i && j < args@.len() ==> command@[j + 1]@ == args@[j]@,
            decreases args.len() - i,
        {
            command.push(args[i].clone());
            i = i + 1;
        }
        command
    }
}

/// Elevation is tried once at most: a process that carries the marker is
/// never started again, whoever runs it and whatever its home is. A process
/// is started again only if it is neither privileged nor marked.
pub proof fn elevation_is_tried_once(is_root: bool, marker_present: bool, home: Option<Seq<char>>)
    ensures
        marker_present ==> !(Privilege::decision(is_root, marker_present, home) is Reexec),
        Privilege::decision(is_root, marker_present, home) is Reexec <==> !is_root
            && !marker_present,
        is_root ==> Privilege::decision(is_root, marker_present, home) is AlreadyPrivileged,
{
}

} // verus!
