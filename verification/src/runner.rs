//! Invocation of one generator: a scratch package with a driver program is
//! laid out, built and started, and the exit code of the driver comes back.
//!
//! The library decides; its caller acts. `Runner::step` takes what happened
//! and says what is to be done next.
use crate::errors::RunError;
use crate::errors::RunFailure;
use crate::gen::Descriptor;
use crate::gen::Generator;
use crate::text::before;
use crate::text::copy_texts;
use crate::text::cut_before;
use crate::text::quote;
use crate::text::quoted;
use crate::text::texts;
use vstd::prelude::*;
use vstd::string::*;

verus! {

/// The path of the callable that makes a generator: the name of its crate,
/// then the way to the callable inside the crate.
#[derive(Debug)]
pub struct EntryPoint {
    pub ep: String,
}

/// The name of the crate in the path of a callable: what stands before the
/// first colon.
pub open spec fn crate_name_of(ep: Seq<char>) -> Seq<char> {
    before(ep, ':')
}

impl EntryPoint {
    /// The name of the crate that holds the callable.
    pub fn crate_name(&self) -> (name: String)
        ensures
            name@ == crate_name_of(self.ep@),
    {
        cut_before(self.ep.as_str(), ':')
    }
}

/// The files of the scratch package that drives one generator.
#[derive(Debug)]
pub struct DriverPackage {
    /// The name of the package.
    pub crate_name: String,
    /// The text of the package manifest.
    pub manifest: String,
    /// The text of the only source file, `src/main.rs`.
    pub main_source: String,
}

/// What a `DriverPackage` holds.
pub ghost struct DriverFiles {
    pub crate_name: Seq<char>,
    pub manifest: Seq<char>,
    pub main_source: Seq<char>,
}

impl View for DriverPackage {
    type V = DriverFiles;

    open spec fn view(&self) -> DriverFiles {
        DriverFiles {
            crate_name: self.crate_name@,
            manifest: self.manifest@,
            main_source: self.main_source@,
        }
    }
}

/// The name of the package that drives the generator called `name`.
pub open spec fn driver_crate_name(name: Seq<char>) -> Seq<char> {
    "cargo-gen-"@ + name
}

/// The manifest of the driver package: its name, and one dependency, the
/// crate of the callable, taken from the root of the package that owns the
/// generator.
pub open spec fn driver_manifest(generator: Descriptor) -> Seq<char> {
    "[package]\nname = "@ + quoted(driver_crate_name(generator.name))
        + "\nversion = \"0.0.0\"\nedition = \"2018\"\n\n[dependencies]\n"@ + quoted(
        crate_name_of(generator.factory),
    ) + " = { path = "@ + quoted(generator.crate_path) + " }\n"@
}

/// The source of the driver: it brings the callable in by its path and
/// calls it with the arguments of the process.
pub open spec fn driver_main(factory: Seq<char>) -> Seq<char> {
    "use "@ + factory
        + " as generate;\n\nfn main() {\n    generate(std::env::args().collect::<Vec<String>>());\n}\n"@
}

/// The scratch package for a generator.
pub open spec fn driver_files(generator: Descriptor) -> DriverFiles {
    DriverFiles {
        crate_name: driver_crate_name(generator.name),
        manifest: driver_manifest(generator),
        main_source: driver_main(generator.factory),
    }
}

/// Writes the scratch package that drives `generator`.
pub fn driver_package(generator: &Generator) -> (package: DriverPackage)
    ensures
        package@ == driver_files(generator@),
{
    let mut crate_name = String::from_str("cargo-gen-");
    crate_name.append(generator.name.as_str());

    let entry = EntryPoint { ep: generator.factory.clone() };
    let quoted_name = quote(crate_name.as_str());
    let quoted_crate = quote(entry.crate_name().as_str());
    let quoted_path = quote(generator.crate_path.as_str());
    let mut manifest = String::from_str("[package]\nname = ");
    manifest.append(quoted_name.as_str());
    manifest.append("\nversion = \"0.0.0\"\nedition = \"2018\"\n\n[dependencies]\n");
    manifest.append(quoted_crate.as_str());
    manifest.append(" = { path = ");
    manifest.append(quoted_path.as_str());
    manifest.append(" }\n");

    let mut main_source = String::from_str("use ");
    main_source.append(generator.factory.as_str());
    main_source.append(
        " as generate;\n\nfn main() {\n    generate(std::env::args().collect::<Vec<String>>());\n}\n",
    );
    DriverPackage { crate_name, manifest, main_source }
}

/// Where an invocation stands.
#[derive(Debug)]
pub enum RunnerState {
    /// Nothing was done yet.
    Idle,
    /// The scratch package is being laid out.
    Synthesizing,
    /// The driver in the scratch directory is being built.
    Building { scratch: String },
    /// The driver runs.
    Spawned { scratch: String },
    /// The driver ran and ended with this exit code, zero or not.
    Completed { code: i32 },
    /// The invocation failed.
    Failed { error: RunError },
}

/// What a `RunnerState` holds.
pub ghost enum Phase {
    Idle,
    Synthesizing,
    Building { scratch: Seq<char> },
    Spawned { scratch: Seq<char> },
    Completed { code: i32 },
    Failed { failure: RunFailure },
}

impl View for RunnerState {
    type V = Phase;

    open spec fn view(&self) -> Phase {
        match self {
            RunnerState::Idle => Phase::Idle,
            RunnerState::Synthesizing => Phase::Synthesizing,
            RunnerState::Building { scratch } => Phase::Building { scratch: scratch@ },
            RunnerState::Spawned { scratch } => Phase::Spawned { scratch: scratch@ },
            RunnerState::Completed { code } => Phase::Completed { code: *code },
            RunnerState::Failed { error } => Phase::Failed { failure: error@ },
        }
    }
}

impl Phase {
    /// Whether the invocation has ended.
    pub open spec fn is_final(self) -> bool {
        self is Completed || self is Failed
    }

    /// The scratch directory that is held in this phase.
    pub open spec fn scratch(self) -> Option<Seq<char>> {
        match self {
            Phase::Building { scratch } => Some(scratch),
            Phase::Spawned { scratch } => Some(scratch),
            _ => None,
        }
    }

    /// How the invocation ended, once it has: the exit code of the driver, or
    /// the failure.
    pub open spec fn outcome(self) -> Option<Result<i32, RunFailure>> {
        match self {
            Phase::Completed { code } => Some(Ok(code)),
            Phase::Failed { failure } => Some(Err(failure)),
            _ => None,
        }
    }
}

/// What happened outside the library.
#[derive(Debug)]
pub enum RunnerEvent {
    /// The caller asks for the invocation.
    Start,
    /// The scratch package lies in the directory `scratch`.
    Scaffolded { scratch: String },
    /// The scratch package could not be laid out.
    ScaffoldFailed { message: String },
    /// The build tool made the program `artifact`.
    Built { artifact: String },
    /// The build tool failed and said `diagnostics`.
    BuildFailed { diagnostics: String },
    /// The program could not be started.
    SpawnFailed { message: String },
    /// The program ran and ended with the exit code `code`.
    Exited { code: i32 },
}

/// What a `RunnerEvent` holds.
pub ghost enum Happening {
    Start,
    Scaffolded { scratch: Seq<char> },
    ScaffoldFailed { message: Seq<char> },
    Built { artifact: Seq<char> },
    BuildFailed { diagnostics: Seq<char> },
    SpawnFailed { message: Seq<char> },
    Exited { code: i32 },
}

impl View for RunnerEvent {
    type V = Happening;

    open spec fn view(&self) -> Happening {
        match self {
            RunnerEvent::Start => Happening::Start,
            RunnerEvent::Scaffolded { scratch } => Happening::Scaffolded { scratch: scratch@ },
            RunnerEvent::ScaffoldFailed { message } => Happening::ScaffoldFailed {
                message: message@,
            },
            RunnerEvent::Built { artifact } => Happening::Built { artifact: artifact@ },
            RunnerEvent::BuildFailed { diagnostics } => Happening::BuildFailed {
                diagnostics: diagnostics@,
            },
            RunnerEvent::SpawnFailed { message } => Happening::SpawnFailed { message: message@ },
            RunnerEvent::Exited { code } => Happening::Exited { code: *code },
        }
    }
}

/// What the caller is to do next.
#[derive(Debug)]
pub enum RunnerAction {
    /// Nothing: the event does not belong to the state.
    Nothing,
    /// Take a fresh scratch directory and lay the package out in it.
    Scaffold { package: DriverPackage },
    /// Build the package in the directory `scratch`.
    Build { scratch: String },
    /// Start the program `artifact` with `arguments`, in the directory
    /// `directory`, its output not held back.
    Spawn { artifact: String, arguments: Vec<String>, directory: String },
    /// The invocation has ended: give the scratch directory back, if one was
    /// taken.
    Release { held: Option<String> },
}

/// What a `RunnerAction` holds.
pub ghost enum Order {
    Nothing,
    Scaffold { package: DriverFiles },
    Build { scratch: Seq<char> },
    Spawn { artifact: Seq<char>, arguments: Seq<Seq<char>>, directory: Seq<char> },
    Release { held: Option<Seq<char>> },
}

impl View for RunnerAction {
    type V = Order;

    open spec fn view(&self) -> Order {
        match self {
            RunnerAction::Nothing => Order::Nothing,
            RunnerAction::Scaffold { package } => Order::Scaffold { package: package@ },
            RunnerAction::Build { scratch } => Order::Build { scratch: scratch@ },
            RunnerAction::Spawn { artifact, arguments, directory } => Order::Spawn {
                artifact: artifact@,
                arguments: texts(arguments@),
                directory: directory@,
            },
            RunnerAction::Release { held } => Order::Release {
                held: match held {
                    Some(path) => Some(path@),
                    None => None,
                },
            },
        }
    }
}

/// One invocation of one generator.
#[derive(Debug)]
pub struct Runner {
    /// The directory in which the caller stands; the generator works there.
    pub directory: String,
    /// The generator to be invoked.
    pub generator: Generator,
    /// The arguments for the generator.
    pub arguments: Vec<String>,
    /// Where the invocation stands.
    pub state: RunnerState,
}

/// What a `Runner` holds.
pub ghost struct Invocation {
    pub directory: Seq<char>,
    pub generator: Descriptor,
    pub arguments: Seq<Seq<char>>,
    pub phase: Phase,
}

impl View for Runner {
    type V = Invocation;

    open spec fn view(&self) -> Invocation {
        Invocation {
            directory: self.directory@,
            generator: self.generator@,
            arguments: texts(self.arguments@),
            phase: self.state@,
        }
    }
}

impl Invocation {
    /// The same invocation in another phase.
    pub open spec fn at(self, phase: Phase) -> Invocation {
        Invocation { phase, ..self }
    }

    /// The phase that follows when `event` happens, and what is to be done.
    /// An event that does not belong to the phase changes nothing.
    pub open spec fn next(self, event: Happening) -> (Invocation, Order) {
        match (self.phase, event) {
            (Phase::Idle, Happening::Start) => (
                self.at(Phase::Synthesizing),
                Order::Scaffold { package: driver_files(self.generator) },
            ),
            (Phase::Synthesizing, Happening::Scaffolded { scratch }) => (
                self.at(Phase::Building { scratch }),
                Order::Build { scratch },
            ),
            (Phase::Synthesizing, Happening::ScaffoldFailed { message }) => (
                self.at(Phase::Failed { failure: RunFailure::Setup { message } }),
                Order::Release { held: None },
            ),
            (Phase::Building { scratch }, Happening::Built { artifact }) => (
                self.at(Phase::Spawned { scratch }),
                Order::Spawn { artifact, arguments: self.arguments, directory: self.directory },
            ),
            (Phase::Building { scratch }, Happening::BuildFailed { diagnostics }) => (
                self.at(Phase::Failed { failure: RunFailure::Build { message: diagnostics } }),
                Order::Release { held: Some(scratch) },
            ),
            (Phase::Spawned { scratch }, Happening::Exited { code }) => (
                self.at(Phase::Completed { code }),
                Order::Release { held: Some(scratch) },
            ),
            (Phase::Spawned { scratch }, Happening::SpawnFailed { message }) => (
                self.at(Phase::Failed { failure: RunFailure::Spawn { message } }),
                Order::Release { held: Some(scratch) },
            ),
            _ => (self, Order::Nothing),
        }
    }

    /// The invocation after the events, and what was to be done at each.
    pub open spec fn after(self, events: Seq<Happening>) -> (Invocation, Seq<Order>)
        decreases events.len(),
    {
        if events.len() == 0 {
            (self, Seq::empty())
        } else {
            let (so_far, orders) = self.after(events.drop_last());
            let (then, order) = so_far.next(events.last());
            (then, orders.push(order))
        }
    }
}

/// Once an invocation has ended, nothing that happens changes it or asks
/// for anything.
pub proof fn lemma_final_absorbs(invocation: Invocation, event: Happening)
    requires
        invocation.phase.is_final(),
    ensures
        invocation.next(event) == (invocation, Order::Nothing),
{
}

/// The driver is started only when a build has just succeeded, and then with
/// the arguments and in the directory that the invocation was made with.
pub proof fn lemma_spawn_follows_build(invocation: Invocation, event: Happening)
    requires
        invocation.next(event).1 is Spawn,
    ensures
        invocation.phase is Building,
        event is Built,
        invocation.next(event).1 == (Order::Spawn {
            artifact: event->artifact,
            arguments: invocation.arguments,
            directory: invocation.directory,
        }),
{
}

/// The step that ends an invocation gives back the scratch directory that
/// was held, whichever way the invocation ends.
pub proof fn lemma_release_at_end(invocation: Invocation, event: Happening)
    requires
        !invocation.phase.is_final(),
        invocation.next(event).0.phase.is_final(),
    ensures
        invocation.next(event).1 == (Order::Release { held: invocation.phase.scratch() }),
{
}

/// No step changes the generator, the arguments or the directory.
pub proof fn lemma_step_keeps_request(invocation: Invocation, event: Happening)
    ensures
        invocation.next(event).0 == invocation.at(invocation.next(event).0.phase),
{
}

/// Whatever exit code the driver ends with is the result of the invocation.
pub proof fn lemma_exit_code_unchanged(invocation: Invocation, event: Happening)
    requires
        invocation.phase is Spawned,
        event is Exited,
    ensures
        invocation.next(event).0.phase.outcome() == Some(
            Ok::<i32, RunFailure>(event->Exited_code),
        ),
{
}

/// An invocation in which everything works ends with the exit code of the
/// driver, be it zero or not, and gives the scratch directory back.
pub proof fn lemma_run_to_completion(
    start: Invocation,
    scratch: Seq<char>,
    artifact: Seq<char>,
    code: i32,
)
    requires
        start.phase is Idle,
    ensures
        start.after(
            seq![
                Happening::Start,
                Happening::Scaffolded { scratch },
                Happening::Built { artifact },
                Happening::Exited { code },
            ],
        ) == (
            start.at(Phase::Completed { code }),
            seq![
                Order::Scaffold { package: driver_files(start.generator) },
                Order::Build { scratch },
                Order::Spawn { artifact, arguments: start.arguments, directory: start.directory },
                Order::Release { held: Some(scratch) },
            ],
        ),
        start.at(Phase::Completed { code }).phase.outcome() == Some(Ok::<i32, RunFailure>(code)),
{
    let e1 = Happening::Start;
    let e2 = Happening::Scaffolded { scratch };
    let e3 = Happening::Built { artifact };
    let e4 = Happening::Exited { code };
    let none = Seq::<Happening>::empty();
    assert(seq![e1].drop_last() =~= none);
    assert(seq![e1, e2].drop_last() =~= seq![e1]);
    assert(seq![e1, e2, e3].drop_last() =~= seq![e1, e2]);
    assert(seq![e1, e2, e3, e4].drop_last() =~= seq![e1, e2, e3]);
    let r0 = start.after(none);
    let r1 = start.after(seq![e1]);
    let r2 = start.after(seq![e1, e2]);
    let r3 = start.after(seq![e1, e2, e3]);
    let r4 = start.after(seq![e1, e2, e3, e4]);
    assert(r0.1 =~= Seq::empty());
    assert(r1.0 == start.at(Phase::Synthesizing));
    assert(r1.1 =~= seq![Order::Scaffold { package: driver_files(start.generator) }]);
    assert(r2.0 == start.at(Phase::Building { scratch }));
    assert(r2.1 =~= seq![
        Order::Scaffold { package: driver_files(start.generator) },
        Order::Build { scratch },
    ]);
    assert(r3.0 == start.at(Phase::Spawned { scratch }));
    assert(r3.1 =~= seq![
        Order::Scaffold { package: driver_files(start.generator) },
        Order::Build { scratch },
        Order::Spawn { artifact, arguments: start.arguments, directory: start.directory },
    ]);
    assert(r4.1 =~= seq![
        Order::Scaffold { package: driver_files(start.generator) },
        Order::Build { scratch },
        Order::Spawn { artifact, arguments: start.arguments, directory: start.directory },
        Order::Release { held: Some(scratch) },
    ]);
}

/// Events that come after others are taken up where the others left off.
pub proof fn lemma_after_both(start: Invocation, first: Seq<Happening>, second: Seq<Happening>)
    ensures
        start.after(first + second).0 == start.after(first).0.after(second).0,
        start.after(first + second).1 == start.after(first).1 + start.after(first).0.after(
            second,
        ).1,
    decreases second.len(),
{
    if second.len() == 0 {
        assert(first + second =~= first);
        assert(start.after(first).1 + Seq::<Order>::empty() =~= start.after(first).1);
    } else {
        lemma_after_both(start, first, second.drop_last());
        assert((first + second).drop_last() =~= first + second.drop_last());
        assert((first + second).last() == second.last());
        let middle = start.after(first);
        let rest = middle.0.after(second.drop_last());
        let order = rest.0.next(second.last()).1;
        assert((middle.1 + rest.1).push(order) =~= middle.1 + rest.1.push(order));
    }
}

/// An invocation that has ended asks for nothing more, whatever happens.
pub proof fn lemma_nothing_after_end(end: Invocation, events: Seq<Happening>)
    requires
        end.phase.is_final(),
    ensures
        end.after(events).0 == end,
        forall|i: int| 0 <= i < events.len() ==> end.after(events).1[i] == Order::Nothing,
        end.after(events).1.len() == events.len(),
    decreases events.len(),
{
    if events.len() > 0 {
        lemma_nothing_after_end(end, events.drop_last());
    }
}

/// Where the driver does not build, the invocation fails with the build
/// tool's own words, and the driver is never started, whatever happens later.
pub proof fn lemma_failed_build_never_runs(
    start: Invocation,
    scratch: Seq<char>,
    diagnostics: Seq<char>,
    later: Seq<Happening>,
)
    requires
        start.phase is Idle,
    ensures
        ({
            let events = seq![
                Happening::Start,
                Happening::Scaffolded { scratch },
                Happening::BuildFailed { diagnostics },
            ] + later;
            &&& start.after(events).0 == start.at(
                Phase::Failed { failure: RunFailure::Build { message: diagnostics } },
            )
            &&& start.after(events).1.len() == events.len()
            &&& start.after(events).1[2] == (Order::Release { held: Some(scratch) })
            &&& forall|i: int| 0 <= i < events.len() ==> !(start.after(events).1[i] is Spawn)
        }),
{
    let e1 = Happening::Start;
    let e2 = Happening::Scaffolded { scratch };
    let e3 = Happening::BuildFailed { diagnostics };
    let first = seq![e1, e2, e3];
    let none = Seq::<Happening>::empty();
    assert(seq![e1].drop_last() =~= none);
    assert(seq![e1, e2].drop_last() =~= seq![e1]);
    assert(first.drop_last() =~= seq![e1, e2]);
    let r0 = start.after(none);
    let r1 = start.after(seq![e1]);
    let r2 = start.after(seq![e1, e2]);
    let r3 = start.after(first);
    assert(r0.1 =~= Seq::empty());
    assert(r1.0 == start.at(Phase::Synthesizing));
    assert(r1.1.len() == 1 && r1.1[0] is Scaffold);
    assert(r2.0 == start.at(Phase::Building { scratch }));
    assert(r2.1.len() == 2 && r2.1[0] is Scaffold && r2.1[1] is Build);
    let failed = start.at(Phase::Failed { failure: RunFailure::Build { message: diagnostics } });
    assert(r3.0 == failed);
    assert(r3.1.len() == 3 && r3.1[0] is Scaffold && r3.1[1] is Build && r3.1[2] == (
        Order::Release { held: Some(scratch) }
    ));
    lemma_after_both(start, first, later);
    lemma_nothing_after_end(failed, later);
}

/// How many of the orders give the scratch directory back.
pub open spec fn releases(orders: Seq<Order>) -> nat
    decreases orders.len(),
{
    if orders.len() == 0 {
        0
    } else {
        releases(orders.drop_last()) + if orders.last() is Release {
            1nat
        } else {
            0nat
        }
    }
}

/// In any course of events, the scratch directory is given back exactly once
/// where the invocation has ended, and not at all where it has not.
pub proof fn lemma_released_once(start: Invocation, events: Seq<Happening>)
    requires
        !start.phase.is_final(),
    ensures
        releases(start.after(events).1) == if start.after(events).0.phase.is_final() {
            1nat
        } else {
            0nat
        },
    decreases events.len(),
{
    if events.len() > 0 {
        lemma_released_once(start, events.drop_last());
        let so_far = start.after(events.drop_last());
        let step = so_far.0.next(events.last());
        assert(start.after(events).1.drop_last() =~= so_far.1);
        if so_far.0.phase.is_final() {
            lemma_final_absorbs(so_far.0, events.last());
        } else if step.0.phase.is_final() {
            lemma_release_at_end(so_far.0, events.last());
        }
    }
}

/// In any course of events, the driver is started only at an event that
/// reports a successful build.
pub proof fn lemma_no_spawn_without_build(start: Invocation, events: Seq<Happening>)
    ensures
        start.after(events).1.len() == events.len(),
        forall|i: int|
            0 <= i < events.len() && start.after(events).1[i] is Spawn ==> events[i] is Built,
    decreases events.len(),
{
    if events.len() > 0 {
        lemma_no_spawn_without_build(start, events.drop_last());
        let so_far = start.after(events.drop_last());
        let orders = start.after(events).1;
        assert forall|i: int| 0 <= i < events.len() && orders[i] is Spawn implies events[i] is Built by {
            if i < events.len() - 1 {
                assert(orders[i] == so_far.1[i]);
                assert(events[i] == events.drop_last()[i]);
            } else {
                lemma_spawn_follows_build(so_far.0, events.last());
            }
        }
    }
}

impl Runner {
    /// An invocation of `generator` with `arguments`, for a caller that
    /// stands in `directory`. Nothing has been done yet.
    pub fn new(directory: String, generator: Generator, arguments: Vec<String>) -> (runner: Runner)
        ensures
            runner@ == (Invocation {
                directory: directory@,
                generator: generator@,
                arguments: texts(arguments@),
                phase: Phase::Idle,
            }),
    {
        Runner { directory, generator, arguments, state: RunnerState::Idle }
    }

    /// Takes note of `event` and says what is to be done next.
    pub fn step(self, event: RunnerEvent) -> (next: (Runner, RunnerAction))
        ensures
            (next.0@, next.1@) == self@.next(event@),
    {
        let Runner { directory, generator, arguments, state } = self;
        match (state, event) {
            (RunnerState::Idle, RunnerEvent::Start) => {
                let package = driver_package(&generator);
                (
                    Runner { directory, generator, arguments, state: RunnerState::Synthesizing },
                    RunnerAction::Scaffold { package },
                )
            },
            (RunnerState::Synthesizing, RunnerEvent::Scaffolded { scratch }) => {
                let build = scratch.clone();
                (
                    Runner {
                        directory,
                        generator,
                        arguments,
                        state: RunnerState::Building { scratch },
                    },
                    RunnerAction::Build { scratch: build },
                )
            },
            (RunnerState::Synthesizing, RunnerEvent::ScaffoldFailed { message }) => (
                Runner {
                    directory,
                    generator,
                    arguments,
                    state: RunnerState::Failed { error: RunError::Setup { message } },
                },
                RunnerAction::Release { held: None },
            ),
            (RunnerState::Building { scratch }, RunnerEvent::Built { artifact }) => {
                let forwarded = copy_texts(&arguments);
                let place = directory.clone();
                (
                    Runner {
                        directory,
                        generator,
                        arguments,
                        state: RunnerState::Spawned { scratch },
                    },
                    RunnerAction::Spawn { artifact, arguments: forwarded, directory: place },
                )
            },
            (RunnerState::Building { scratch }, RunnerEvent::BuildFailed { diagnostics }) => (
                Runner {
                    directory,
                    generator,
                    arguments,
                    state: RunnerState::Failed { error: RunError::Build { message: diagnostics } },
                },
                RunnerAction::Release { held: Some(scratch) },
            ),
            (RunnerState::Spawned { scratch }, RunnerEvent::Exited { code }) => (
                Runner { directory, generator, arguments, state: RunnerState::Completed { code } },
                RunnerAction::Release { held: Some(scratch) },
            ),
            (RunnerState::Spawned { scratch }, RunnerEvent::SpawnFailed { message }) => (
                Runner {
                    directory,
                    generator,
                    arguments,
                    state: RunnerState::Failed { error: RunError::Spawn { message } },
                },
                RunnerAction::Release { held: Some(scratch) },
            ),
            (state, _) => (Runner { directory, generator, arguments, state }, RunnerAction::Nothing),
        }
    }

    /// How the invocation ended: the exit code of the driver, unchanged, or
    /// the failure. `None` as long as it has not ended.
    pub fn outcome(&self) -> (outcome: Option<Result<i32, &RunError>>)
        ensures
            match outcome {
                Some(Ok(code)) => self@.phase.outcome() == Some(Ok::<i32, RunFailure>(code)),
                Some(Err(error)) => self@.phase.outcome() == Some(
                    Err::<i32, RunFailure>(error@),
                ),
                None => self@.phase.outcome() is None,
            },
    {
        match &self.state {
            RunnerState::Completed { code } => Some(Ok(*code)),
            RunnerState::Failed { error } => Some(Err(error)),
            _ => None,
        }
    }
}

} // verus!
