//! The course of one installation.
//!
//! A [`Session`] decides; it does nothing. Each [`Session::step`] takes what
//! has just happened, an [`Event`], and answers with the lines to write and
//! the one thing to do next, an [`Action`]: run a command, put a question,
//! or leave with an exit status. Whoever drives the session does that and
//! comes back with the next event.
//!
//! A run reads the manifest, brings the host up to date, creates the scratch
//! directory, lets the user choose a bundle and confirm, then takes the four
//! packages in the order of their roles (ask the package database, probe the
//! link, download), installs what was downloaded in two batches, and removes
//! the scratch directory. Whatever goes wrong on the way, a user who says no
//! and an interruption included, leads to the same removal of the scratch
//! directory and from there to the exit: [`next`] is the whole protocol.

use vstd::prelude::*;
use vstd::string::*;
use crate::cli::{
    answer_of, choice_of, confirm, get_choice, join, log, put, put_all, silence, styled, Confirm,
    Line, LineView, Lvl, Menu, MenuView, NO, UNKNOWN, YES,
};
use crate::exec::{
    announced, end, farewell, made, made_lines, mktmp, mktmp_command, probe, probe_of, ran,
    removed, removed_lines, rmtmp, rmtmp_command, run, status, Command, CommandView, Outcome,
    OutcomeView, Ran, RanView,
};
use crate::pkgs::{
    are_roles, heading, Batch, Data, DataView, Pkgs, PkgsView, Progress, Task, COMPATIBLE,
    RECENT, ROLES,
};

verus! {

/// The question which bundle to install.
pub const VERSION_PROMPT: &'static str =
    "Would you like to install the recent or compatible version?";

/// The question whether to go on.
pub const PROCEED_PROMPT: &'static str = "Would you like to proceed with the installation?";

/// What is said when the run is interrupted from outside.
pub const INTERRUPTED: &'static str = "Installation was interrupted by the user. Cleaning up...";

/// What a session is waiting for.
#[derive(Clone, Copy, Debug, PartialEq, Eq, Structural)]
pub enum Phase {
    /// For the manifest.
    Loading,
    /// For the command of the task to end.
    Running(Task),
    /// For the user to pick a bundle.
    Choosing,
    /// For the user to say whether to go on.
    Confirming,
    /// For nothing: the run is over.
    Done,
}

/// What can happen to a session.
#[derive(Clone, Debug, PartialEq, Eq)]
pub enum Event {
    /// The manifest was read.
    Loaded(Data),
    /// The manifest could not be read, or is not a manifest.
    Rejected(String),
    /// The command of the last action ended.
    Ran(Outcome),
    /// The user picked the item at this position of the last menu.
    Chosen(usize),
    /// The last menu could not be shown, or no answer could be read.
    Unanswered(String),
    /// The run was interrupted from outside.
    Interrupted,
}

/// An [`Event`] as a mathematical value.
pub enum EventView {
    Loaded(DataView),
    Rejected(Seq<char>),
    Ran(OutcomeView),
    Chosen(usize),
    Unanswered(Seq<char>),
    Interrupted,
}

impl View for Event {
    type V = EventView;

    open spec fn view(&self) -> EventView {
        match self {
            Event::Loaded(data) => EventView::Loaded(data@),
            Event::Rejected(why) => EventView::Rejected(why@),
            Event::Ran(outcome) => EventView::Ran(outcome@),
            Event::Chosen(choice) => EventView::Chosen(*choice),
            Event::Unanswered(why) => EventView::Unanswered(why@),
            Event::Interrupted => EventView::Interrupted,
        }
    }
}

/// What a session asks for.
#[derive(Clone, Debug, PartialEq, Eq)]
pub enum Action {
    /// Run the command, which serves the task named, and report how it ended.
    Run(Task, Command),
    /// Put this menu before the user and report the position picked.
    Ask(Menu),
    /// Nothing new: go on with what was asked for before.
    Resume,
    /// Leave with this exit status.
    Exit(i32),
}

/// An [`Action`] as a mathematical value.
pub enum ActionView {
    Run(Task, CommandView),
    Ask(MenuView),
    Resume,
    Exit(i32),
}

impl View for Action {
    type V = ActionView;

    open spec fn view(&self) -> ActionView {
        match self {
            Action::Run(task, cmd) => ActionView::Run(*task, cmd@),
            Action::Ask(menu) => ActionView::Ask(menu@),
            Action::Resume => ActionView::Resume,
            Action::Exit(code) => ActionView::Exit(*code),
        }
    }
}

/// The answer of a session to an event: first the lines to write, then the
/// action to take.
#[derive(Clone, Debug, PartialEq, Eq)]
pub struct Step {
    pub lines: Vec<Line>,
    pub action: Action,
}

/// A [`Step`] as a mathematical value.
pub struct StepView {
    pub lines: Seq<LineView>,
    pub action: ActionView,
}

impl View for Step {
    type V = StepView;

    open spec fn view(&self) -> StepView {
        StepView { lines: self.lines.deep_view(), action: self.action@ }
    }
}

/// What a session has learned so far.
#[derive(Debug)]
struct Facts {
    data: Option<Data>,
    chosen: usize,
    downloaded: Vec<usize>,
    failed: bool,
}

/// What a session has learned so far, as a mathematical value.
pub struct FactsView {
    /// The manifest, once it was read.
    pub data: Option<DataView>,
    /// The position of the bundle that the user picked; 0 before that.
    pub chosen: usize,
    /// The roles whose packages were downloaded, in the order in which
    /// they were.
    pub downloaded: Seq<usize>,
    /// Whether the run was given up.
    pub failed: bool,
}

/// The mathematical value of a manifest that may be missing.
pub open spec fn data_view(data: Option<Data>) -> Option<DataView> {
    match data {
        Some(d) => Some(d@),
        None => None,
    }
}

impl View for Facts {
    type V = FactsView;

    closed spec fn view(&self) -> FactsView {
        FactsView {
            data: data_view(self.data),
            chosen: self.chosen,
            downloaded: self.downloaded@,
            failed: self.failed,
        }
    }
}

/// One installation, from the reading of the manifest to the exit.
#[derive(Debug)]
pub struct Session {
    phase: Phase,
    facts: Facts,
}

/// A [`Session`] as a mathematical value.
pub struct SessionView {
    pub phase: Phase,
    pub facts: FactsView,
}

impl View for Session {
    type V = SessionView;

    closed spec fn view(&self) -> SessionView {
        SessionView { phase: self.phase, facts: self.facts@ }
    }
}

/// The menu of bundles.
pub open spec fn version_menu() -> MenuView {
    choice_of(RECENT@, COMPATIBLE@, VERSION_PROMPT@)
}

/// The menu that asks whether to go on.
pub open spec fn proceed_menu() -> MenuView {
    choice_of(YES@, NO@, PROCEED_PROMPT@)
}

/// What is written when something happens that the session did not ask for.
pub open spec fn unknown_lines() -> Seq<LineView> {
    seq![styled(Lvl::Error, UNKNOWN@)]
}

impl FactsView {
    /// The manifest.
    pub open spec fn manifest(self) -> DataView {
        self.data.unwrap()
    }

    /// The bundle that the user picked.
    pub open spec fn bundle(self) -> PkgsView {
        self.manifest().bundle(self.chosen)
    }

    /// Whether the command of `task` can be worded from what is known: a
    /// role is one of the four, and a batch has something to install.
    pub open spec fn ready(self, task: Task) -> bool {
        match task {
            Task::Update => self.data is Some,
            Task::MakeTmp => true,
            Task::Query(role) => self.data is Some && role < ROLES,
            Task::Probe(role) => self.data is Some && role < ROLES,
            Task::Fetch(role) => self.data is Some && role < ROLES,
            Task::Install(batch) => self.data is Some && self.bundle().batch(
                batch,
                self.downloaded,
            ) is Some,
            Task::RemoveTmp => true,
        }
    }

    /// The command of a task.
    pub open spec fn command(self, task: Task) -> CommandView {
        match task {
            Task::Update => self.manifest().install_deps(),
            Task::MakeTmp => mktmp_command(),
            Task::Query(role) => self.bundle().packages()[role as int].query(),
            Task::Probe(role) => probe_of(self.bundle().packages()[role as int].link),
            Task::Fetch(role) => self.bundle().packages()[role as int].fetch(),
            Task::Install(batch) => self.bundle().batch(batch, self.downloaded).unwrap(),
            Task::RemoveTmp => rmtmp_command(),
        }
    }

    /// Goes on with `task`: its command is announced after `lines` and
    /// asked for.
    pub open spec fn issue(self, lines: Seq<LineView>, task: Task) -> (SessionView, StepView) {
        let cmd = self.command(task);
        (
            SessionView { phase: Phase::Running(task), facts: self },
            StepView { lines: lines + announced(cmd), action: ActionView::Run(task, cmd) },
        )
    }

    /// Puts `menu` before the user after `lines`, and waits in `phase`.
    pub open spec fn ask(self, lines: Seq<LineView>, phase: Phase, menu: MenuView) -> (
        SessionView,
        StepView,
    ) {
        (SessionView { phase, facts: self }, StepView { lines, action: ActionView::Ask(menu) })
    }

    /// Gives the run up: after `lines`, the scratch directory is removed,
    /// and the run will leave with exit status 1.
    pub open spec fn abandon(self, lines: Seq<LineView>) -> (SessionView, StepView) {
        FactsView { failed: true, ..self }.issue(lines, Task::RemoveTmp)
    }

    /// Ends a run that went through: after `lines` comes the closing
    /// advice, and the scratch directory is removed.
    pub open spec fn finish(self, lines: Seq<LineView>) -> (SessionView, StepView) {
        self.issue(lines + self.bundle().goodbye(), Task::RemoveTmp)
    }

    /// Installs the second batch if anything of it was downloaded, and ends
    /// the run.
    pub open spec fn install_rest(self, lines: Seq<LineView>) -> (SessionView, StepView) {
        if self.bundle().batch(Batch::Cuda, self.downloaded) is Some {
            self.issue(lines, Task::Install(Batch::Cuda))
        } else {
            self.finish(lines)
        }
    }

    /// Installs what was downloaded: the first batch if anything of it was,
    /// then the second.
    pub open spec fn install(self, lines: Seq<LineView>) -> (SessionView, StepView) {
        if self.bundle().batch(Batch::Gcc, self.downloaded) is Some {
            self.issue(lines, Task::Install(Batch::Gcc))
        } else {
            self.install_rest(lines)
        }
    }

    /// Turns to the package of `role`, or to the install phase when all four
    /// roles have had their turn.
    pub open spec fn seek(self, lines: Seq<LineView>, role: usize) -> (SessionView, StepView) {
        if role < ROLES {
            self.issue(lines, Task::Query(role))
        } else {
            self.install(lines)
        }
    }

    /// What follows when the command of `task` has ended with `ran`.
    ///
    /// A failed update of the host and a failed batch are reported and the
    /// run goes on. A scratch directory that cannot be created, a link
    /// that cannot be reached and a download that fails end the run.
    pub open spec fn react(self, task: Task, ran: RanView) -> (SessionView, StepView) {
        match task {
            Task::Update => self.issue(
                ran.lines + self.manifest().updated(ran.reply),
                Task::MakeTmp,
            ),
            Task::MakeTmp => if ran.reply is Ok {
                self.ask(ran.lines + made_lines(ran.reply), Phase::Choosing, version_menu())
            } else {
                self.abandon(ran.lines + made_lines(ran.reply))
            },
            Task::Install(Batch::Gcc) => self.install_rest(
                ran.lines + Batch::Gcc.report(ran.reply),
            ),
            Task::Install(Batch::Cuda) => self.finish(ran.lines + Batch::Cuda.report(ran.reply)),
            Task::RemoveTmp => self.close(ran),
            _ => self.fetched(task, ran),
        }
    }

    /// What follows when a command of the download phase has ended.
    pub open spec fn fetched(self, task: Task, ran: RanView) -> (SessionView, StepView) {
        let role = task.role().unwrap();
        let lines = ran.lines + self.bundle().progress_lines(task, ran.reply);
        match self.bundle().progress(task, ran.reply) {
            Progress::Then(more) => self.issue(lines, more),
            Progress::Present => self.seek(lines, (role + 1) as usize),
            Progress::Stored => FactsView {
                downloaded: self.downloaded.push(role),
                ..self
            }.seek(lines, (role + 1) as usize),
            Progress::Broken => self.abandon(lines),
        }
    }

    /// The end of a run: the removal of the scratch directory is reported,
    /// then how the run went, and the session asks to leave.
    pub open spec fn close(self, ran: RanView) -> (SessionView, StepView) {
        (
            SessionView { phase: Phase::Done, facts: self },
            StepView {
                lines: (ran.lines + removed_lines(ran.reply)).push(farewell(self.failed)),
                action: ActionView::Exit(status(self.failed)),
            },
        )
    }

    /// What follows an event that the session did not ask for: an
    /// interruption from outside is named as such, and either way the run is
    /// given up.
    pub open spec fn stray(self, event: EventView) -> (SessionView, StepView) {
        match event {
            EventView::Interrupted => self.abandon(seq![styled(Lvl::Error, INTERRUPTED@)]),
            _ => self.abandon(unknown_lines()),
        }
    }

    /// What follows the user's pick in the menu of bundles.
    pub open spec fn pick(self, choice: usize) -> (SessionView, StepView) {
        if choice < 2 {
            let picked = FactsView { chosen: choice, ..self };
            picked.ask(
                seq![heading(choice)] + picked.bundle().support_lines(),
                Phase::Confirming,
                proceed_menu(),
            )
        } else {
            self.abandon(unknown_lines())
        }
    }

    /// What follows the user's answer to the question whether to go on: on
    /// yes the first package has its turn, on no the run is given up
    /// without another word.
    pub open spec fn proceed(self, choice: usize) -> (SessionView, StepView) {
        if choice >= 2 {
            self.abandon(unknown_lines())
        } else if answer_of(choice) == Confirm::Yes {
            self.seek(Seq::empty(), 0)
        } else {
            self.abandon(Seq::empty())
        }
    }
}

/// A session before anything has happened.
pub open spec fn init() -> SessionView {
    SessionView {
        phase: Phase::Loading,
        facts: FactsView { data: None, chosen: 0, downloaded: Seq::empty(), failed: false },
    }
}

/// The protocol: the session after `event` and its answer to it.
///
/// Once the removal of the scratch directory is under way, nothing but its
/// ending moves the session: every other event is answered with
/// [`ActionView::Resume`]. Once the run is over, every event is answered with
/// the exit status again. Before that, an event that the session did not ask
/// for in the phase it is in, an interruption included, gives the run up.
pub open spec fn next(s: SessionView, event: EventView) -> (SessionView, StepView) {
    match s.phase {
        Phase::Done => (
            s,
            StepView { lines: Seq::empty(), action: ActionView::Exit(status(s.facts.failed)) },
        ),
        Phase::Running(Task::RemoveTmp) => match event {
            EventView::Ran(outcome) => s.facts.close(ran(rmtmp_command(), outcome)),
            _ => (s, StepView { lines: Seq::empty(), action: ActionView::Resume }),
        },
        Phase::Loading => match event {
            EventView::Loaded(data) => FactsView { data: Some(data), ..s.facts }.issue(
                Seq::empty(),
                Task::Update,
            ),
            EventView::Rejected(why) => s.facts.abandon(
                seq![styled(Lvl::Error, "Failed to parse JSON file: "@ + why)],
            ),
            _ => s.facts.stray(event),
        },
        Phase::Running(task) => match event {
            EventView::Ran(outcome) => s.facts.react(task, ran(s.facts.command(task), outcome)),
            _ => s.facts.stray(event),
        },
        Phase::Choosing => match event {
            EventView::Chosen(choice) => s.facts.pick(choice),
            EventView::Unanswered(why) => s.facts.abandon(
                seq![styled(Lvl::Error, "Failed to get user choice: "@ + why)],
            ),
            _ => s.facts.stray(event),
        },
        Phase::Confirming => match event {
            EventView::Chosen(choice) => s.facts.proceed(choice),
            EventView::Unanswered(why) => s.facts.abandon(
                seq![styled(Lvl::Error, "Failed to get user choice: "@ + why)],
            ),
            _ => s.facts.stray(event),
        },
    }
}

impl SessionView {
    /// What holds of every session that a run can reach.
    ///
    /// The roles downloaded are among the four. A run that was given up is
    /// removing the scratch directory or is over. Before the download phase
    /// nothing is downloaded; while the package of a role has its turn, only
    /// roles before it are; and a batch is only being installed if something
    /// of it was downloaded.
    pub open spec fn inv(self) -> bool {
        &&& self.facts.chosen < 2
        &&& are_roles(self.facts.downloaded)
        &&& self.facts.failed ==> self.phase == Phase::Running(Task::RemoveTmp) || self.phase
            == Phase::Done
        &&& match self.phase {
            Phase::Loading => self.facts.data is None && self.facts.downloaded.len() == 0,
            Phase::Done => true,
            Phase::Choosing => self.facts.data is Some && self.facts.downloaded.len() == 0,
            Phase::Confirming => self.facts.data is Some && self.facts.downloaded.len() == 0,
            Phase::Running(task) => self.facts.ready(task) && match task {
                Task::Update => self.facts.downloaded.len() == 0,
                Task::MakeTmp => self.facts.data is Some && self.facts.downloaded.len() == 0,
                Task::Query(role) => self.facts.below(role),
                Task::Probe(role) => self.facts.below(role),
                Task::Fetch(role) => self.facts.below(role),
                Task::Install(_) => true,
                Task::RemoveTmp => true,
            },
        }
    }
}

impl FactsView {
    /// Whether only roles before `role` were downloaded.
    pub open spec fn below(self, role: usize) -> bool {
        forall|i: int| 0 <= i < self.downloaded.len() ==> #[trigger] self.downloaded[i] < role
    }
}

impl Facts {
    /// The bundle that the user picked.
    fn bundle(&self) -> (bundle: &Pkgs)
        requires
            self@.data is Some,
        ensures
            bundle@ == self@.bundle(),
    {
        let data = self.data.as_ref().unwrap();
        if self.chosen == 0 {
            &data.recent
        } else {
            &data.compatible
        }
    }

    /// The command of a task.
    fn command(&self, task: Task) -> (cmd: Command)
        requires
            self@.ready(task),
            are_roles(self@.downloaded),
        ensures
            cmd@ == self@.command(task),
    {
        match task {
            Task::Update => self.data.as_ref().unwrap().install_deps(),
            Task::MakeTmp => mktmp(),
            Task::Query(role) => self.bundle().package(role).query(),
            Task::Probe(role) => probe(self.bundle().package(role).link.as_str()),
            Task::Fetch(role) => self.bundle().package(role).fetch(),
            Task::Install(batch) => {
                let plan = self.bundle().install(&self.downloaded);
                match batch {
                    Batch::Gcc => plan.gcc.unwrap(),
                    Batch::Cuda => plan.cuda.unwrap(),
                }
            },
            Task::RemoveTmp => rmtmp(),
        }
    }

    /// Goes on with `task`.
    fn issue(self, lines: Vec<Line>, task: Task) -> (r: (Session, Step))
        requires
            (SessionView { phase: Phase::Running(task), facts: self@ }).inv(),
        ensures
            (r.0@, r.1@) == self@.issue(lines.deep_view(), task),
    {
        let cmd = self.command(task);
        let mut lines = lines;
        put_all(&mut lines, cmd.announce());
        (
            Session { phase: Phase::Running(task), facts: self },
            Step { lines, action: Action::Run(task, cmd) },
        )
    }

    /// Puts `menu` before the user and waits in `phase`.
    fn ask(self, lines: Vec<Line>, phase: Phase, menu: Menu) -> (r: (Session, Step))
        requires
            (SessionView { phase, facts: self@ }).inv(),
        ensures
            (r.0@, r.1@) == self@.ask(lines.deep_view(), phase, menu@),
    {
        (Session { phase, facts: self }, Step { lines, action: Action::Ask(menu) })
    }

    /// Gives the run up and removes the scratch directory.
    fn abandon(self, lines: Vec<Line>) -> (r: (Session, Step))
        requires
            self@.chosen < 2,
            are_roles(self@.downloaded),
        ensures
            (r.0@, r.1@) == self@.abandon(lines.deep_view()),
    {
        let facts = Facts { failed: true, ..self };
        facts.issue(lines, Task::RemoveTmp)
    }

    /// Ends a run that went through.
    fn finish(self, lines: Vec<Line>) -> (r: (Session, Step))
        requires
            self@.chosen < 2,
            self@.data is Some,
            !self@.failed,
            are_roles(self@.downloaded),
        ensures
            (r.0@, r.1@) == self@.finish(lines.deep_view()),
    {
        let mut lines = lines;
        put_all(&mut lines, self.bundle().goodbye());
        self.issue(lines, Task::RemoveTmp)
    }

    /// Installs the second batch, if there is anything of it, and ends the run.
    fn install_rest(self, lines: Vec<Line>) -> (r: (Session, Step))
        requires
            self@.chosen < 2,
            self@.data is Some,
            !self@.failed,
            are_roles(self@.downloaded),
        ensures
            (r.0@, r.1@) == self@.install_rest(lines.deep_view()),
    {
        let plan = self.bundle().install(&self.downloaded);
        if plan.cuda.is_some() {
            self.issue(lines, Task::Install(Batch::Cuda))
        } else {
            self.finish(lines)
        }
    }

    /// Installs what was downloaded.
    fn install(self, lines: Vec<Line>) -> (r: (Session, Step))
        requires
            self@.chosen < 2,
            self@.data is Some,
            !self@.failed,
            are_roles(self@.downloaded),
        ensures
            (r.0@, r.1@) == self@.install(lines.deep_view()),
    {
        let plan = self.bundle().install(&self.downloaded);
        if plan.gcc.is_some() {
            self.issue(lines, Task::Install(Batch::Gcc))
        } else {
            self.install_rest(lines)
        }
    }

    /// Turns to the package of `role`, or to the install phase after the last.
    fn seek(self, lines: Vec<Line>, role: usize) -> (r: (Session, Step))
        requires
            self@.chosen < 2,
            self@.data is Some,
            !self@.failed,
            role <= ROLES,
            self@.below(role),
        ensures
            (r.0@, r.1@) == self@.seek(lines.deep_view(), role),
    {
        if role < ROLES {
            self.issue(lines, Task::Query(role))
        } else {
            self.install(lines)
        }
    }

    /// Reads the ending of a command of the download phase.
    fn fetched(self, task: Task, ran: Ran) -> (r: (Session, Step))
        requires
            task.role() is Some,
            (SessionView { phase: Phase::Running(task), facts: self@ }).inv(),
        ensures
            (r.0@, r.1@) == self@.fetched(task, ran@),
    {
        let role: usize = match task {
            Task::Query(role) => role,
            Task::Probe(role) => role,
            Task::Fetch(role) => role,
            _ => 0,
        };
        let mut lines = ran.lines;
        let (progress, more) = self.bundle().download(task, &ran.reply);
        put_all(&mut lines, more);
        match progress {
            Progress::Then(more) => self.issue(lines, more),
            Progress::Present => self.seek(lines, role + 1),
            Progress::Stored => {
                let mut facts = self;
                facts.downloaded.push(role);
                facts.seek(lines, role + 1)
            },
            Progress::Broken => self.abandon(lines),
        }
    }

    /// Reads the ending of the removal of the scratch directory.
    fn close(self, ran: Ran) -> (r: (Session, Step))
        requires
            (SessionView { phase: Phase::Done, facts: self@ }).inv(),
        ensures
            (r.0@, r.1@) == self@.close(ran@),
    {
        let mut lines = ran.lines;
        put_all(&mut lines, removed(&ran.reply));
        let (last, code) = end(self.failed);
        put(&mut lines, last);
        (Session { phase: Phase::Done, facts: self }, Step { lines, action: Action::Exit(code) })
    }

    /// Reads the ending of the command of `task`.
    fn react(self, task: Task, ran: Ran) -> (r: (Session, Step))
        requires
            (SessionView { phase: Phase::Running(task), facts: self@ }).inv(),
        ensures
            (r.0@, r.1@) == self@.react(task, ran@),
    {
        match task {
            Task::Update => {
                let mut lines = ran.lines;
                put_all(&mut lines, self.data.as_ref().unwrap().updated(&ran.reply));
                self.issue(lines, Task::MakeTmp)
            },
            Task::MakeTmp => {
                let mut lines = ran.lines;
                let (ok, more) = made(&ran.reply);
                put_all(&mut lines, more);
                if ok {
                    let menu = get_choice(RECENT, COMPATIBLE, VERSION_PROMPT);
                    self.ask(lines, Phase::Choosing, menu)
                } else {
                    self.abandon(lines)
                }
            },
            Task::Install(Batch::Gcc) => {
                let mut lines = ran.lines;
                put_all(&mut lines, Batch::Gcc.installed(&ran.reply));
                self.install_rest(lines)
            },
            Task::Install(Batch::Cuda) => {
                let mut lines = ran.lines;
                put_all(&mut lines, Batch::Cuda.installed(&ran.reply));
                self.finish(lines)
            },
            Task::RemoveTmp => self.close(ran),
            _ => self.fetched(task, ran),
        }
    }

    /// Answers an event that was not asked for.
    fn stray(self, event: Event) -> (r: (Session, Step))
        requires
            self@.chosen < 2,
            are_roles(self@.downloaded),
        ensures
            (r.0@, r.1@) == self@.stray(event@),
    {
        let mut lines = silence();
        match event {
            Event::Interrupted => {
                put(&mut lines, log(Lvl::Error, INTERRUPTED));
            },
            _ => {
                put(&mut lines, log(Lvl::Error, UNKNOWN));
            },
        }
        self.abandon(lines)
    }

    /// Reads the user's pick in the menu of bundles.
    fn pick(self, choice: usize) -> (r: (Session, Step))
        requires
            (SessionView { phase: Phase::Choosing, facts: self@ }).inv(),
        ensures
            (r.0@, r.1@) == self@.pick(choice),
    {
        let mut lines = silence();
        if choice < 2 {
            let picked = Facts { chosen: choice, ..self };
            let (bundle, head) = picked.data.as_ref().unwrap().version(choice);
            put(&mut lines, head);
            put_all(&mut lines, bundle.print_support());
            picked.ask(lines, Phase::Confirming, get_choice(YES, NO, PROCEED_PROMPT))
        } else {
            put(&mut lines, log(Lvl::Error, UNKNOWN));
            self.abandon(lines)
        }
    }

    /// Reads the user's answer to the question whether to go on.
    fn proceed(self, choice: usize) -> (r: (Session, Step))
        requires
            (SessionView { phase: Phase::Confirming, facts: self@ }).inv(),
        ensures
            (r.0@, r.1@) == self@.proceed(choice),
    {
        let mut lines = silence();
        if choice >= 2 {
            put(&mut lines, log(Lvl::Error, UNKNOWN));
            self.abandon(lines)
        } else {
            match confirm(choice) {
                Confirm::Yes => self.seek(lines, 0),
                Confirm::No => self.abandon(lines),
            }
        }
    }

    /// Gives the run up because a menu got no answer.
    fn unanswered(self, why: String) -> (r: (Session, Step))
        requires
            self@.chosen < 2,
            are_roles(self@.downloaded),
        ensures
            (r.0@, r.1@) == self@.abandon(
                seq![styled(Lvl::Error, "Failed to get user choice: "@ + why@)],
            ),
    {
        let mut lines = silence();
        let text = join("Failed to get user choice: ", why.as_str());
        put(&mut lines, log(Lvl::Error, text.as_str()));
        self.abandon(lines)
    }
}

impl Session {
    /// A session is always one that a run can reach.
    #[verifier::type_invariant]
    spec fn valid(self) -> bool {
        self@.inv()
    }

    /// Tells a verified caller what the type keeps to itself: every session
    /// is one that a run can reach, so all that is proved of such sessions
    /// holds of this one. There is nothing to do when it runs.
    pub fn reached(&self)
        ensures
            self@.inv(),
    {
        proof {
            use_type_invariant(self);
        }
    }

    /// A session before anything has happened: it waits for the manifest.
    pub fn new() -> (s: Session)
        ensures
            s@ == init(),
            s@.inv(),
    {
        Session {
            phase: Phase::Loading,
            facts: Facts { data: None, chosen: 0, downloaded: Vec::new(), failed: false },
        }
    }

    /// What the session is waiting for.
    pub fn phase(&self) -> (phase: Phase)
        ensures
            phase == self@.phase,
    {
        self.phase
    }

    /// The roles whose packages were downloaded so far, in the order in
    /// which they were.
    pub fn downloaded(&self) -> (roles: &Vec<usize>)
        ensures
            roles@ == self@.facts.downloaded,
    {
        &self.facts.downloaded
    }

    /// Whether the run was given up.
    pub fn failed(&self) -> (failed: bool)
        ensures
            failed == self@.facts.failed,
    {
        self.facts.failed
    }

    /// Takes `event` and answers it: the session that results, and the
    /// lines to write and the action to take, as [`next`] says.
    pub fn step(self, event: Event) -> (r: (Session, Step))
        ensures
            (r.0@, r.1@) == next(self@, event@),
            r.0@.inv(),
    {
        proof {
            use_type_invariant(&self);
        }
        let Session { phase, facts } = self;
        let answer = match phase {
            Phase::Done => {
                let (_, code) = end(facts.failed);
                (
                    Session { phase: Phase::Done, facts },
                    Step { lines: silence(), action: Action::Exit(code) },
                )
            },
            Phase::Running(Task::RemoveTmp) => match event {
                Event::Ran(outcome) => {
                    let cmd = rmtmp();
                    facts.close(run(&cmd, outcome))
                },
                _ => (
                    Session { phase: Phase::Running(Task::RemoveTmp), facts },
                    Step { lines: silence(), action: Action::Resume },
                ),
            },
            Phase::Loading => match event {
                Event::Loaded(data) => {
                    let loaded = Facts { data: Some(data), ..facts };
                    loaded.issue(silence(), Task::Update)
                },
                Event::Rejected(why) => {
                    let mut lines = silence();
                    let text = join("Failed to parse JSON file: ", why.as_str());
                    put(&mut lines, log(Lvl::Error, text.as_str()));
                    facts.abandon(lines)
                },
                _ => facts.stray(event),
            },
            Phase::Running(task) => match event {
                Event::Ran(outcome) => {
                    let cmd = facts.command(task);
                    facts.react(task, run(&cmd, outcome))
                },
                _ => facts.stray(event),
            },
            Phase::Choosing => match event {
                Event::Chosen(choice) => facts.pick(choice),
                Event::Unanswered(why) => facts.unanswered(why),
                _ => facts.stray(event),
            },
            Phase::Confirming => match event {
                Event::Chosen(choice) => facts.proceed(choice),
                Event::Unanswered(why) => facts.unanswered(why),
                _ => facts.stray(event),
            },
        };
        proof {
            use_type_invariant(&answer.0);
        }
        answer
    }
}

impl Data {
    /// Opens a session on this manifest: the session that results, and its
    /// first request, the update of the host.
    pub fn start(self) -> (r: (Session, Step))
        ensures
            (r.0@, r.1@) == next(init(), EventView::Loaded(self@)),
            r.0@.inv(),
    {
        Session::new().step(Event::Loaded(self))
    }
}

} // verus!
