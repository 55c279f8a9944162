//! The certificate commands as a session: the library decides each step and
//! its caller performs it (reads a file, calls the firmware, writes a file)
//! and reports back how it went.

use vstd::prelude::*;

use crate::table::{
    build, fetched_certs, is_table_of, lemma_build_then_plan, planned, plan_view, total_len, write_plan,
    CertsError, Dest, ExtConfig, Operation, Write, MAX_CERT_BYTES,
};

pub mod get;
pub mod set;

verus! {

/// A certificate command.
#[derive(Clone, Debug)]
pub enum CertsCmd {
    /// Install three certificates from files.
    Install(set::Args),
    /// Write the installed certificates to files.
    Get(get::Args),
}

/// What the caller is to do next.
#[derive(Debug)]
pub enum Action {
    /// Read the certificate of this role from the file at this path.
    Read(Dest, String),
    /// Install this configuration in the firmware.
    Submit(ExtConfig),
    /// Fetch the firmware's configuration.
    Fetch,
    /// Create or overwrite the file at this path with these bytes, the
    /// certificate of this role.
    Write(Dest, String, Vec<u8>),
    /// Stop, with this outcome.
    Finish(Result<(), CertsError>),
}

/// How the last action went.
#[derive(Clone, Debug)]
pub enum Event {
    Read(Vec<u8>),
    ReadFailed,
    Submitted,
    SubmitFailed,
    Fetched(ExtConfig),
    FetchFailed,
    Written,
    WriteFailed,
}

/// Where a command stands.
#[derive(Clone, Debug)]
pub enum Session {
    ReadingArk { args: set::Args },
    ReadingAsk { args: set::Args, ark: Vec<u8> },
    ReadingVcek { args: set::Args, ark: Vec<u8>, ask: Vec<u8> },
    Submitting,
    Fetching { args: get::Args },
    /// Writing the plan's entry at `next`; those before it are written.
    Writing { args: get::Args, plan: Vec<Write>, next: usize },
    Finished,
}

/// The source file of the certificate of role `d`.
pub open spec fn source_path(args: set::Args, d: Dest) -> String {
    match d {
        Dest::Ark => args.ark,
        Dest::Ask => args.ask,
        Dest::Vcek => args.vcek,
    }
}

/// The output file of the certificate of role `d`.
pub open spec fn output_path(args: get::Args, d: Dest) -> String {
    match d {
        Dest::Ark => args.ark,
        Dest::Ask => args.ask,
        Dest::Vcek => args.vcek,
    }
}

/// The step is to stop with outcome `o`.
pub open spec fn finishes(r: (Session, Action), o: Result<(), CertsError>) -> bool {
    r.0 is Finished && r.1 == Action::Finish(o)
}

/// The step is to read the certificate of role `d`.
pub open spec fn reads(a: Action, args: set::Args, d: Dest) -> bool {
    a == Action::Read(d, source_path(args, d))
}

/// The step carries on with the writes of `plan` from index `next`: it
/// writes that entry to its output, or, with all of them written, succeeds.
pub open spec fn writes_from(
    r: (Session, Action),
    args: get::Args,
    plan: Seq<(Dest, Seq<u8>)>,
    next: int,
) -> bool {
    if next < plan.len() {
        &&& r.0 matches Session::Writing { args: a, plan: p, next: n }
        &&& a == args && plan_view(p@) == plan && n == next
        &&& r.1 matches Action::Write(d, path, data)
        &&& d == plan[next].0 && path == output_path(args, d) && data@ == plan[next].1
    } else {
        finishes(r, Ok(()))
    }
}

impl Session {
    /// The session's own consistency: a write in progress is one of the plan.
    pub open spec fn wf(self) -> bool {
        self matches Session::Writing { plan, next, .. } ==> next < plan.len()
    }

    /// Whether `ev` answers the action that led to this state.
    pub open spec fn expects(self, ev: Event) -> bool {
        match self {
            Session::ReadingArk { .. } | Session::ReadingAsk { .. } | Session::ReadingVcek {
                ..
            } => ev is Read || ev is ReadFailed,
            Session::Submitting => ev is Submitted || ev is SubmitFailed,
            Session::Fetching { .. } => ev is Fetched || ev is FetchFailed,
            Session::Writing { .. } => ev is Written || ev is WriteFailed,
            Session::Finished => false,
        }
    }

    /// Whether `ev` answers the action that led to this state.
    pub fn accepts(&self, ev: &Event) -> (r: bool)
        ensures
            r == self.expects(*ev),
    {
        match self {
            Session::ReadingArk { .. } | Session::ReadingAsk { .. } | Session::ReadingVcek {
                ..
            } => matches!(ev, Event::Read(_) | Event::ReadFailed),
            Session::Submitting => matches!(ev, Event::Submitted | Event::SubmitFailed),
            Session::Fetching { .. } => matches!(ev, Event::Fetched(_) | Event::FetchFailed),
            Session::Writing { .. } => matches!(ev, Event::Written | Event::WriteFailed),
            Session::Finished => false,
        }
    }
}

/// A copy of `v`.
fn copy_bytes(v: &Vec<u8>) -> (r: Vec<u8>)
    ensures
        r@ == v@,
{
    let r = v.clone();
    assert(r@ =~= v@);
    r
}

/// The output path of role `d`.
fn output_file(args: &get::Args, d: Dest) -> (r: String)
    ensures
        r == output_path(*args, d),
{
    match d {
        Dest::Ark => args.ark.clone(),
        Dest::Ask => args.ask.clone(),
        Dest::Vcek => args.vcek.clone(),
    }
}

/// Goes on with the writes of `plan` from index `next`.
fn write_from(args: get::Args, plan: Vec<Write>, next: usize) -> (r: (Session, Action))
    requires
        next <= plan.len(),
    ensures
        writes_from(r, args, plan_view(plan@), next as int),
        r.0.wf(),
{
    if next < plan.len() {
        let d = plan[next].dest;
        let data = copy_bytes(&plan[next].data);
        let path = output_file(&args, d);
        (Session::Writing { args, plan, next }, Action::Write(d, path, data))
    } else {
        (Session::Finished, Action::Finish(Ok(())))
    }
}

/// Starts a certificate command: installing reads the root key first;
/// getting fetches the firmware's configuration first.
pub fn cmd(command: CertsCmd) -> (r: (Session, Action))
    ensures
        r.0.wf(),
        match command {
            CertsCmd::Install(args) => r.0 == Session::ReadingArk { args } && reads(
                r.1,
                args,
                Dest::Ark,
            ),
            CertsCmd::Get(args) => r.0 == Session::Fetching { args } && r.1 is Fetch,
        },
{
    match command {
        CertsCmd::Install(args) => {
            let path = args.ark.clone();
            (Session::ReadingArk { args }, Action::Read(Dest::Ark, path))
        },
        CertsCmd::Get(args) => (Session::Fetching { args }, Action::Fetch),
    }
}

impl Session {
    /// Takes the outcome of the last action and decides the next one.
    ///
    /// Installing reads the root, signing and endorsement keys in turn, then
    /// submits the table built from them; a failed read ends the command.
    /// Getting fetches the configuration, fails where it has no table, and
    /// otherwise writes the recognised entries one by one in table order.
    /// A failed write ends the command there: the outputs written before it
    /// stay written, and those after it are not touched.
    pub fn step(self, ev: Event) -> (r: (Session, Action))
        requires
            self.wf(),
            self.expects(ev),
        ensures
            r.0.wf(),
            match (self, ev) {
                (Session::ReadingArk { args }, Event::Read(b)) => r.0 == Session::ReadingAsk {
                    args,
                    ark: b,
                } && reads(r.1, args, Dest::Ask),
                (Session::ReadingAsk { args, ark }, Event::Read(b)) => r.0
                    == Session::ReadingVcek { args, ark, ask: b } && reads(r.1, args, Dest::Vcek),
                (Session::ReadingVcek { args, ark, ask }, Event::Read(b)) => if total_len(
                    ark@,
                    ask@,
                    b@,
                ) < MAX_CERT_BYTES {
                    &&& r.0 is Submitting
                    &&& r.1 matches Action::Submit(c)
                    &&& is_table_of(c, ark@, ask@, b@)
                } else {
                    finishes(r, Err(CertsError::TableTooLarge))
                },
                (Session::ReadingArk { .. }, Event::ReadFailed) => finishes(
                    r,
                    Err(CertsError::FileRead(Dest::Ark)),
                ),
                (Session::ReadingAsk { .. }, Event::ReadFailed) => finishes(
                    r,
                    Err(CertsError::FileRead(Dest::Ask)),
                ),
                (Session::ReadingVcek { .. }, Event::ReadFailed) => finishes(
                    r,
                    Err(CertsError::FileRead(Dest::Vcek)),
                ),
                (Session::Submitting, Event::Submitted) => finishes(r, Ok(())),
                (Session::Submitting, Event::SubmitFailed) => finishes(
                    r,
                    Err(CertsError::Channel(Operation::Submit)),
                ),
                (Session::Fetching { args }, Event::Fetched(c)) => match c.certs {
                    None => finishes(r, Err(CertsError::MissingTable)),
                    Some(certs) => writes_from(r, args, planned(certs@), 0),
                },
                (Session::Fetching { .. }, Event::FetchFailed) => finishes(
                    r,
                    Err(CertsError::Channel(Operation::Fetch)),
                ),
                (Session::Writing { args, plan, next }, Event::Written) => writes_from(
                    r,
                    args,
                    plan_view(plan@),
                    next + 1,
                ),
                (Session::Writing { plan, next, .. }, Event::WriteFailed) => finishes(
                    r,
                    Err(CertsError::FileWrite(plan@[next as int].dest)),
                ),
                _ => false,
            },
    {
        match self {
            Session::ReadingArk { args } => match ev {
                Event::Read(b) => {
                    let path = args.ask.clone();
                    (Session::ReadingAsk { args, ark: b }, Action::Read(Dest::Ask, path))
                },
                _ => (Session::Finished, Action::Finish(Err(CertsError::FileRead(Dest::Ark)))),
            },
            Session::ReadingAsk { args, ark } => match ev {
                Event::Read(b) => {
                    let path = args.vcek.clone();
                    (
                        Session::ReadingVcek { args, ark, ask: b },
                        Action::Read(Dest::Vcek, path),
                    )
                },
                _ => (Session::Finished, Action::Finish(Err(CertsError::FileRead(Dest::Ask)))),
            },
            Session::ReadingVcek { args, ark, ask } => match ev {
                Event::Read(b) => {
                    if ark.len() < MAX_CERT_BYTES && ask.len() < MAX_CERT_BYTES - ark.len()
                        && b.len() < MAX_CERT_BYTES - ark.len() - ask.len() {
                        (Session::Submitting, Action::Submit(build(ark, ask, b)))
                    } else {
                        (Session::Finished, Action::Finish(Err(CertsError::TableTooLarge)))
                    }
                },
                _ => (Session::Finished, Action::Finish(Err(CertsError::FileRead(Dest::Vcek)))),
            },
            Session::Submitting => match ev {
                Event::Submitted => (Session::Finished, Action::Finish(Ok(()))),
                _ => (
                    Session::Finished,
                    Action::Finish(Err(CertsError::Channel(Operation::Submit))),
                ),
            },
            Session::Fetching { args } => match ev {
                Event::Fetched(c) => match fetched_certs(c) {
                    Ok(certs) => {
                        let plan = write_plan(&certs);
                        write_from(args, plan, 0)
                    },
                    Err(e) => (Session::Finished, Action::Finish(Err(e))),
                },
                _ => (
                    Session::Finished,
                    Action::Finish(Err(CertsError::Channel(Operation::Fetch))),
                ),
            },
            Session::Writing { args, plan, next } => match ev {
                Event::Written => write_from(args, plan, next + 1),
                _ => {
                    let d = plan[next].dest;
                    (Session::Finished, Action::Finish(Err(CertsError::FileWrite(d))))
                },
            },
            Session::Finished => (Session::Finished, Action::Finish(Ok(()))),
        }
    }
}

/// What the outputs hold once the first `n` writes of `plan` are done, in
/// plan order, as `step` performs them: a later write to an output replaces
/// an earlier one.
pub open spec fn outputs_after(plan: Seq<(Dest, Seq<u8>)>, n: nat) -> Map<Dest, Seq<u8>>
    decreases n,
{
    if n == 0 || plan.len() == 0 {
        Map::empty()
    } else if n > plan.len() {
        outputs_after(plan, plan.len())
    } else {
        outputs_after(plan, (n - 1) as nat).insert(plan[n - 1].0, plan[n - 1].1)
    }
}

/// Writing out a built table is not all or nothing: where the second write
/// fails, the session stops with the first output written and holding the
/// root key, and the other two outputs untouched.
pub proof fn lemma_second_write_fails(table: ExtConfig, ark: Seq<u8>, ask: Seq<u8>, vcek: Seq<u8>)
    requires
        is_table_of(table, ark, ask, vcek),
    ensures
        planned(table.certs->0@)[1].0 == Dest::Ask,
        outputs_after(planned(table.certs->0@), 1) == map![Dest::Ark => ark],
        !outputs_after(planned(table.certs->0@), 1).contains_key(Dest::Ask),
        !outputs_after(planned(table.certs->0@), 1).contains_key(Dest::Vcek),
{
    lemma_build_then_plan(table, ark, ask, vcek);
    let plan = planned(table.certs->0@);
    assert(outputs_after(plan, 0) == Map::<Dest, Seq<u8>>::empty());
    assert(outputs_after(plan, 1) =~= map![Dest::Ark => ark]);
}

} // verus!
