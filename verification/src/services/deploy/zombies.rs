//! Docker processes that are dead, hung or orphaned, and their removal before
//! a build.

use vstd::prelude::*;

use crate::collections;
use crate::services::deploy::action;
use crate::services::deploy::action::ProcessOutput;
use crate::text::chars;
use crate::text::chars::{str_eq, strings};
use crate::text::edit;
use crate::text::edit::words;
use crate::text::number;
use crate::text::number::{parse_i32, parse_i64, signed_decimal};
use crate::text::search;
use crate::text::search::contains;
use crate::text::split;
use crate::text::split::{join_from, lines, trim};

verus! {

/// Seconds after which a build counts as hung.
pub const HUNG_BUILD_SECS: i64 = 1800;

/// The line describes a docker process that is dead but not gone.
pub open spec fn is_zombie_line(line: Seq<char>) -> bool {
    &&& search::has_substring(line, "docker"@) || search::has_substring(line, "buildkit"@)
    &&& search::has_substring(line, "<defunct>"@) || search::has_substring(line, " Z "@)
        || search::has_substring(line, " Z+ "@)
}

/// The process that the line describes, where it is a zombie.
pub open spec fn zombie_of(line: Seq<char>) -> Option<Seq<char>> {
    let w = edit::words_spec(line);
    if is_zombie_line(line) && w.len() >= 2 {
        match number::parse_i32_spec(w[1]) {
            Some(pid) => Some(number::signed_decimal_spec(pid)),
            None => None,
        }
    } else {
        None
    }
}

/// The zombies that the listing of all processes shows.
pub open spec fn zombies_of(listing: Seq<char>) -> Seq<Seq<char>> {
    collections::keep_some(split::lines_spec(listing).map_values(|l: Seq<char>| zombie_of(l)))
}

/// The process that the line describes, where it is a build that hangs.
pub open spec fn hung_of(line: Seq<char>) -> Option<Seq<char>> {
    let w = edit::words_spec(line);
    if w.len() >= 3 {
        let secs = match number::parse_signed_spec(w[1]) {
            Some(n) => n,
            None => 0,
        };
        let command = split::join_spec(w.subrange(2, w.len() as int), " "@);
        if secs > HUNG_BUILD_SECS && (search::has_substring(command, "docker build"@)
            || search::has_substring(command, "docker-buildx"@)) {
            Some(w[0])
        } else {
            None
        }
    } else {
        None
    }
}

/// The builds that hang, by the listing of process ages below its heading.
pub open spec fn hung_builds_of(listing: Seq<char>) -> Seq<Seq<char>> {
    let all = split::lines_spec(listing);
    if all.len() <= 1 {
        Seq::empty()
    } else {
        collections::keep_some(
            all.subrange(1, all.len() as int).map_values(|l: Seq<char>| hung_of(l)),
        )
    }
}

/// The process that the line names.
pub open spec fn pid_of(line: Seq<char>) -> Option<Seq<char>> {
    if split::trim_spec(line).len() > 0 {
        Some(split::trim_spec(line))
    } else {
        None
    }
}

/// The processes that the listing names, one on each line.
pub open spec fn pids_of(listing: Seq<char>) -> Seq<Seq<char>> {
    collections::keep_some(split::lines_spec(listing).map_values(|l: Seq<char>| pid_of(l)))
}

fn zombie_pid(line: &str) -> (r: Option<String>)
    ensures
        chars::opt_view(r) == zombie_of(line@),
{
    let w = words(line);
    if (contains(line, "docker") || contains(line, "buildkit")) && (contains(line, "<defunct>")
        || contains(line, " Z ") || contains(line, " Z+ ")) && w.len() >= 2 {
        assert(w@[1]@ == chars::views(w@)[1]);
        match parse_i32(w[1].as_str()) {
            Some(pid) => Some(signed_decimal(pid as i64)),
            None => None,
        }
    } else {
        None
    }
}

/// Lists the zombies.
pub fn zombie_pids(listing: &str) -> (r: Vec<String>)
    ensures
        chars::views(r@) == zombies_of(listing@),
{
    let all_lines = lines(listing);
    let ghost all = split::lines_spec(listing@).map_values(|l: Seq<char>| zombie_of(l));
    let mut r: Vec<String> = Vec::new();
    let mut i: usize = 0;
    assert(chars::views(r@) =~= collections::keep_some(all.take(0)));
    while i < all_lines.len()
        invariant
            i <= all_lines@.len(),
            chars::views(all_lines@) == split::lines_spec(listing@),
            all == split::lines_spec(listing@).map_values(|l: Seq<char>| zombie_of(l)),
            chars::views(r@) == collections::keep_some(all.take(i as int)),
        decreases all_lines@.len() - i,
    {
        proof {
            collections::lemma_keep_some_step(all, i as int);
            assert(all_lines@[i as int]@ == chars::views(all_lines@)[i as int]);
        }
        if let Some(p) = zombie_pid(all_lines[i].as_str()) {
            let ghost before = r@;
            r.push(p);
            assert(chars::views(r@) =~= chars::views(before).push(p@));
        }
        i = i + 1;
    }
    assert(all.take(all.len() as int) =~= all);
    r
}

fn hung_pid(line: &str) -> (r: Option<String>)
    ensures
        chars::opt_view(r) == hung_of(line@),
{
    let w = words(line);
    if w.len() < 3 {
        return None;
    }
    assert(w@[0]@ == chars::views(w@)[0]);
    assert(w@[1]@ == chars::views(w@)[1]);
    let secs: i64 = match parse_i64(w[1].as_str()) {
        Some(n) => n,
        None => 0,
    };
    let command = join_from(&w, 2, " ");
    if secs > HUNG_BUILD_SECS && (contains(command.as_str(), "docker build") || contains(
        command.as_str(),
        "docker-buildx",
    )) {
        Some(w[0].clone())
    } else {
        None
    }
}

/// Lists the builds that hang.
pub fn hung_build_pids(listing: &str) -> (r: Vec<String>)
    ensures
        chars::views(r@) == hung_builds_of(listing@),
{
    let all_lines = lines(listing);
    let ghost every = split::lines_spec(listing@);
    let mut r: Vec<String> = Vec::new();
    assert(chars::views(r@) =~= Seq::empty());
    assert(every.len() == all_lines@.len());
    if all_lines.len() <= 1 {
        return r;
    }
    let ghost all = every.subrange(1, every.len() as int).map_values(|l: Seq<char>| hung_of(l));
    let mut i: usize = 1;
    assert(chars::views(r@) =~= collections::keep_some(all.take(0)));
    while i < all_lines.len()
        invariant
            1 <= i <= all_lines@.len(),
            chars::views(all_lines@) == every,
            all == every.subrange(1, every.len() as int).map_values(|l: Seq<char>| hung_of(l)),
            chars::views(r@) == collections::keep_some(all.take(i - 1)),
        decreases all_lines@.len() - i,
    {
        proof {
            collections::lemma_keep_some_step(all, i - 1);
            assert(all_lines@[i as int]@ == chars::views(all_lines@)[i as int]);
        }
        if let Some(p) = hung_pid(all_lines[i].as_str()) {
            let ghost before = r@;
            r.push(p);
            assert(chars::views(r@) =~= chars::views(before).push(p@));
        }
        i = i + 1;
    }
    assert(all.take(all.len() as int) =~= all);
    r
}

/// Lists the processes named on each line.
pub fn listed_pids(listing: &str) -> (r: Vec<String>)
    ensures
        chars::views(r@) == pids_of(listing@),
{
    let all_lines = lines(listing);
    let ghost all = split::lines_spec(listing@).map_values(|l: Seq<char>| pid_of(l));
    let mut r: Vec<String> = Vec::new();
    let mut i: usize = 0;
    assert(chars::views(r@) =~= collections::keep_some(all.take(0)));
    while i < all_lines.len()
        invariant
            i <= all_lines@.len(),
            chars::views(all_lines@) == split::lines_spec(listing@),
            all == split::lines_spec(listing@).map_values(|l: Seq<char>| pid_of(l)),
            chars::views(r@) == collections::keep_some(all.take(i as int)),
        decreases all_lines@.len() - i,
    {
        proof {
            collections::lemma_keep_some_step(all, i as int);
            assert(all_lines@[i as int]@ == chars::views(all_lines@)[i as int]);
        }
        let p = trim(all_lines[i].as_str());
        if !p.as_str().is_empty() {
            let ghost before = r@;
            r.push(p);
            assert(chars::views(r@) =~= chars::views(before).push(p@));
        }
        i = i + 1;
    }
    assert(all.take(all.len() as int) =~= all);
    r
}

/// How far the removal has come.
#[derive(Debug)]
pub enum CleanupPhase {
    /// Listing all processes.
    ListAll,
    /// Killing the zombies.
    KillZombie { pids: Vec<String>, next: usize },
    /// Listing the ages of processes.
    ListAges,
    /// Killing the builds that hang.
    KillHung { pids: Vec<String>, next: usize },
    /// Listing the build daemons.
    ListDaemons,
    /// Asking for the parent of a build daemon.
    AskParent { pids: Vec<String>, next: usize },
    /// Killing a build daemon without a parent.
    KillOrphan { pids: Vec<String>, next: usize },
    /// The removal is over.
    Ended,
}

/// The removal of docker processes, with the numbers of zombies and of hung or
/// orphaned processes that were killed.
#[derive(Debug)]
pub struct ZombieCleanup {
    pub zombies: u64,
    pub hung: u64,
    pub phase: CleanupPhase,
}

/// The contents of a `CleanupPhase`.
pub ghost enum PhaseView {
    ListAll,
    KillZombie { pids: Seq<Seq<char>>, next: int },
    ListAges,
    KillHung { pids: Seq<Seq<char>>, next: int },
    ListDaemons,
    AskParent { pids: Seq<Seq<char>>, next: int },
    KillOrphan { pids: Seq<Seq<char>>, next: int },
    Ended,
}

/// The contents of a `ZombieCleanup`.
pub ghost struct CleanupView {
    pub zombies: u64,
    pub hung: u64,
    pub phase: PhaseView,
}

impl View for CleanupPhase {
    type V = PhaseView;

    open spec fn view(&self) -> PhaseView {
        match *self {
            CleanupPhase::ListAll => PhaseView::ListAll,
            CleanupPhase::KillZombie { pids, next } => PhaseView::KillZombie {
                pids: chars::views(pids@),
                next: next as int,
            },
            CleanupPhase::ListAges => PhaseView::ListAges,
            CleanupPhase::KillHung { pids, next } => PhaseView::KillHung {
                pids: chars::views(pids@),
                next: next as int,
            },
            CleanupPhase::ListDaemons => PhaseView::ListDaemons,
            CleanupPhase::AskParent { pids, next } => PhaseView::AskParent {
                pids: chars::views(pids@),
                next: next as int,
            },
            CleanupPhase::KillOrphan { pids, next } => PhaseView::KillOrphan {
                pids: chars::views(pids@),
                next: next as int,
            },
            CleanupPhase::Ended => PhaseView::Ended,
        }
    }
}

impl View for ZombieCleanup {
    type V = CleanupView;

    open spec fn view(&self) -> CleanupView {
        CleanupView { zombies: self.zombies, hung: self.hung, phase: self.phase@ }
    }
}

/// What a step of the removal leads to: its state, and the command that it
/// waits for unless it is over.
pub ghost struct StepView {
    pub state: CleanupView,
    pub command: Option<action::ActionView>,
}

/// One more, as far as the counter goes.
pub open spec fn more(n: u64) -> u64 {
    if n < u64::MAX {
        (n + 1) as u64
    } else {
        n
    }
}

fn count(n: u64) -> (r: u64)
    ensures
        r == more(n),
{
    if n < u64::MAX {
        n + 1
    } else {
        n
    }
}

/// The command that kills a process.
pub open spec fn kill(pid: Seq<char>) -> action::ActionView {
    action::run("kill"@, seq!["-9"@, pid])
}

impl CleanupView {
    /// The same removal in another phase, with a command.
    pub open spec fn go(self, phase: PhaseView, command: action::ActionView) -> StepView {
        StepView { state: CleanupView { phase, ..self }, command: Some(command) }
    }

    /// The removal is over.
    pub open spec fn end(self) -> StepView {
        StepView { state: CleanupView { phase: PhaseView::Ended, ..self }, command: None }
    }

    /// Lists the ages of processes.
    pub open spec fn list_ages(self) -> StepView {
        self.go(PhaseView::ListAges, action::run("ps"@, seq!["-eo"@, "pid,etimes,args"@]))
    }

    /// Kills the next zombie.
    pub open spec fn next_zombie(self, pids: Seq<Seq<char>>, next: int) -> StepView {
        if next < pids.len() {
            self.go(PhaseView::KillZombie { pids, next }, kill(pids[next]))
        } else {
            self.list_ages()
        }
    }

    /// Lists the build daemons.
    pub open spec fn list_daemons(self) -> StepView {
        self.go(PhaseView::ListDaemons, action::run("pgrep"@, seq!["-f"@, "buildkit"@]))
    }

    /// Kills the next build that hangs.
    pub open spec fn next_hung(self, pids: Seq<Seq<char>>, next: int) -> StepView {
        if next < pids.len() {
            self.go(PhaseView::KillHung { pids, next }, kill(pids[next]))
        } else {
            self.list_daemons()
        }
    }

    /// Asks for the parent of the next build daemon.
    pub open spec fn next_daemon(self, pids: Seq<Seq<char>>, next: int) -> StepView {
        if next < pids.len() {
            self.go(
                PhaseView::AskParent { pids, next },
                action::run("ps"@, seq!["-o"@, "ppid="@, "-p"@, pids[next]]),
            )
        } else {
            self.end()
        }
    }

    /// The removal begins.
    pub open spec fn begin_spec(self) -> StepView {
        (CleanupView { zombies: 0, hung: 0, phase: PhaseView::ListAll }).go(
            PhaseView::ListAll,
            action::run("ps"@, seq!["aux"@]),
        )
    }

    /// The outcome of a command came back.
    pub open spec fn on_output_spec(self, r: Result<action::OutputView, Seq<char>>) -> StepView {
        match self.phase {
            PhaseView::ListAll => match r {
                Ok(o) => self.next_zombie(zombies_of(o.stdout), 0),
                Err(_) => self.list_ages(),
            },
            PhaseView::KillZombie { pids, next } => match r {
                Ok(_) => (CleanupView { zombies: more(self.zombies), ..self }).next_zombie(
                    pids,
                    next + 1,
                ),
                Err(_) => self.next_zombie(pids, next + 1),
            },
            PhaseView::ListAges => match r {
                Ok(o) => self.next_hung(hung_builds_of(o.stdout), 0),
                Err(_) => self.list_daemons(),
            },
            PhaseView::KillHung { pids, next } => match r {
                Ok(_) => (CleanupView { hung: more(self.hung), ..self }).next_hung(pids, next + 1),
                Err(_) => self.next_hung(pids, next + 1),
            },
            PhaseView::ListDaemons => match r {
                Ok(o) => if o.success() {
                    self.next_daemon(pids_of(o.stdout), 0)
                } else {
                    self.end()
                },
                Err(_) => self.end(),
            },
            PhaseView::AskParent { pids, next } => match r {
                Ok(o) => if split::trim_spec(o.stdout) == "1"@ {
                    self.go(PhaseView::KillOrphan { pids, next }, kill(pids[next]))
                } else {
                    self.next_daemon(pids, next + 1)
                },
                Err(_) => self.next_daemon(pids, next + 1),
            },
            PhaseView::KillOrphan { pids, next } => (CleanupView {
                hung: more(self.hung),
                ..self
            }).next_daemon(pids, next + 1),
            PhaseView::Ended => self.end(),
        }
    }
}

/// The contents of an optional action.
pub open spec fn command_view(c: Option<action::DeployAction>) -> Option<action::ActionView> {
    match c {
        Some(a) => Some(a@),
        None => None,
    }
}

fn command(program: &str, args: &[&str]) -> (r: Option<action::DeployAction>)
    ensures
        command_view(r) == Some(action::run(program@, chars::str_views(args@))),
{
    Some(
        action::DeployAction::Run {
            program: program.to_owned(),
            args: strings(args),
            dir: None,
        },
    )
}

fn kill_command(pid: &str) -> (r: Option<action::DeployAction>)
    ensures
        command_view(r) == Some(kill(pid@)),
{
    let r = command("kill", &["-9", pid]);
    assert(chars::str_views(seq!["-9", pid]) =~= seq!["-9"@, pid@]);
    r
}

impl ZombieCleanup {
    /// The index of the current process is in range.
    pub open spec fn wf(&self) -> bool {
        match self.phase {
            CleanupPhase::KillZombie { pids, next } => next < pids@.len(),
            CleanupPhase::KillHung { pids, next } => next < pids@.len(),
            CleanupPhase::AskParent { pids, next } => next < pids@.len(),
            CleanupPhase::KillOrphan { pids, next } => next < pids@.len(),
            _ => true,
        }
    }

    /// A removal that has not begun.
    pub fn new() -> (r: ZombieCleanup)
        ensures
            r.wf(),
            r@ == (CleanupView { zombies: 0, hung: 0, phase: PhaseView::ListAll }),
    {
        ZombieCleanup { zombies: 0, hung: 0, phase: CleanupPhase::ListAll }
    }

    /// Begins the removal.
    pub fn begin(&mut self) -> (r: Option<action::DeployAction>)
        ensures
            final(self).wf(),
            old(self)@.begin_spec() == (StepView {
                state: final(self)@,
                command: command_view(r),
            }),
    {
        self.zombies = 0;
        self.hung = 0;
        self.phase = CleanupPhase::ListAll;
        let args = ["aux"];
        assert(chars::str_views(args@) =~= seq!["aux"@]);
        command("ps", &args)
    }

    fn list_ages(&mut self) -> (r: Option<action::DeployAction>)
        ensures
            final(self).wf(),
            old(self)@.list_ages() == (StepView {
                state: final(self)@,
                command: command_view(r),
            }),
    {
        self.phase = CleanupPhase::ListAges;
        assert(chars::str_views(seq!["-eo", "pid,etimes,args"]) =~= seq![
            "-eo"@,
            "pid,etimes,args"@,
        ]);
        command("ps", &["-eo", "pid,etimes,args"])
    }

    fn next_zombie(&mut self, pids: Vec<String>, next: usize) -> (r: Option<action::DeployAction>)
        ensures
            final(self).wf(),
            old(self)@.next_zombie(chars::views(pids@), next as int) == (StepView {
                state: final(self)@,
                command: command_view(r),
            }),
    {
        if next < pids.len() {
            assert(pids@[next as int]@ == chars::views(pids@)[next as int]);
            let r = kill_command(pids[next].as_str());
            self.phase = CleanupPhase::KillZombie { pids, next };
            r
        } else {
            self.list_ages()
        }
    }

    fn list_daemons(&mut self) -> (r: Option<action::DeployAction>)
        ensures
            final(self).wf(),
            old(self)@.list_daemons() == (StepView {
                state: final(self)@,
                command: command_view(r),
            }),
    {
        self.phase = CleanupPhase::ListDaemons;
        assert(chars::str_views(seq!["-f", "buildkit"]) =~= seq!["-f"@, "buildkit"@]);
        command("pgrep", &["-f", "buildkit"])
    }

    fn next_hung(&mut self, pids: Vec<String>, next: usize) -> (r: Option<action::DeployAction>)
        ensures
            final(self).wf(),
            old(self)@.next_hung(chars::views(pids@), next as int) == (StepView {
                state: final(self)@,
                command: command_view(r),
            }),
    {
        if next < pids.len() {
            assert(pids@[next as int]@ == chars::views(pids@)[next as int]);
            let r = kill_command(pids[next].as_str());
            self.phase = CleanupPhase::KillHung { pids, next };
            r
        } else {
            self.list_daemons()
        }
    }

    fn next_daemon(&mut self, pids: Vec<String>, next: usize) -> (r: Option<action::DeployAction>)
        ensures
            final(self).wf(),
            old(self)@.next_daemon(chars::views(pids@), next as int) == (StepView {
                state: final(self)@,
                command: command_view(r),
            }),
    {
        if next < pids.len() {
            let ghost pid = pids@[next as int]@;
            assert(pid == chars::views(pids@)[next as int]);
            let p = pids[next].as_str();
            let r = command("ps", &["-o", "ppid=", "-p", p]);
            assert(chars::str_views(seq!["-o", "ppid=", "-p", p]) =~= seq![
                "-o"@,
                "ppid="@,
                "-p"@,
                pid,
            ]);
            self.phase = CleanupPhase::AskParent { pids, next };
            r
        } else {
            self.phase = CleanupPhase::Ended;
            None
        }
    }

    /// Takes the outcome of the command that the removal waits for.
    pub fn on_output(&mut self, result: &Result<ProcessOutput, String>) -> (r: Option<
        action::DeployAction,
    >)
        requires
            old(self).wf(),
        ensures
            final(self).wf(),
            old(self)@.on_output_spec(action::result_view(*result)) == (StepView {
                state: final(self)@,
                command: command_view(r),
            }),
    {
        let mut phase = CleanupPhase::Ended;
        std::mem::swap(&mut phase, &mut self.phase);
        match phase {
            CleanupPhase::ListAll => match result {
                Ok(o) => self.next_zombie(zombie_pids(o.stdout.as_str()), 0),
                Err(_) => self.list_ages(),
            },
            CleanupPhase::KillZombie { pids, next } => {
                let n = pids.len();
                assert(next < n);
                if result.is_ok() {
                    self.zombies = count(self.zombies);
                }
                self.next_zombie(pids, next + 1)
            },
            CleanupPhase::ListAges => match result {
                Ok(o) => self.next_hung(hung_build_pids(o.stdout.as_str()), 0),
                Err(_) => self.list_daemons(),
            },
            CleanupPhase::KillHung { pids, next } => {
                let n = pids.len();
                assert(next < n);
                if result.is_ok() {
                    self.hung = count(self.hung);
                }
                self.next_hung(pids, next + 1)
            },
            CleanupPhase::ListDaemons => {
                if let Ok(o) = result {
                    if o.is_success() {
                        return self.next_daemon(listed_pids(o.stdout.as_str()), 0);
                    }
                }
                None
            },
            CleanupPhase::AskParent { pids, next } => {
                let n = pids.len();
                assert(next < n);
                if let Ok(o) = result {
                    if str_eq(trim(o.stdout.as_str()).as_str(), "1") {
                        assert(pids@[next as int]@ == chars::views(pids@)[next as int]);
                        let r = kill_command(pids[next].as_str());
                        self.phase = CleanupPhase::KillOrphan { pids, next };
                        return r;
                    }
                }
                self.next_daemon(pids, next + 1)
            },
            CleanupPhase::KillOrphan { pids, next } => {
                let n = pids.len();
                assert(next < n);
                self.hung = count(self.hung);
                self.next_daemon(pids, next + 1)
            },
            CleanupPhase::Ended => None,
        }
    }
}

} // verus!
