//! The single-consumer job pipeline and the run flag.
//!
//! Every state-mutating operation reaches the coordinator as a job on one
//! queue, executed by exactly one consumer.  Stopping sets the run flag to
//! false and then pushes one no-op job, in that order: the consumer may be
//! blocked waiting for a job, and the no-op is what wakes it to observe the
//! flag.  Stop drains: every job queued up to and including that no-op is
//! still executed before the loop exits.

use vstd::prelude::*;

use crate::coordinator::Coordinator;
use crate::dispatch::{dispatch_result, dispatch_state, env_text, process, res_rep, Response};
use crate::events::EventKind;
use crate::json::json_parse;

verus! {

broadcast use vstd::std_specs::vec::group_vec_axioms, vstd::seq::group_seq_axioms;

/// A deferred unit of work for the consumer thread: the closed set of
/// variants keeps the pipeline explicit and serializable.
pub enum Job {
    /// Does nothing; pushed by `stop` to wake the consumer.
    NoOp,
    /// Processes one raw wire message.
    Process(String),
}

/// The cost of one job in the termination measure of `run`: processing a
/// message can push at most one no-op (through an app-shutdown trigger), so
/// it weighs the extra unit.
pub open spec fn jweight(j: Job) -> int {
    match j {
        Job::NoOp => 1,
        Job::Process(_) => 2,
    }
}

/// The total weight of a queue.
pub open spec fn qweight(s: Seq<Job>) -> int
    decreases s.len(),
{
    if s.len() == 0 {
        0
    } else {
        jweight(s[0]) + qweight(s.drop_first())
    }
}

pub proof fn lemma_qweight_bounds(s: Seq<Job>)
    ensures
        s.len() <= qweight(s) <= 2 * s.len(),
    decreases s.len(),
{
    if s.len() > 0 {
        lemma_qweight_bounds(s.drop_first());
    }
}

pub proof fn lemma_qweight_push(s: Seq<Job>, j: Job)
    ensures
        qweight(s.push(j)) == qweight(s) + jweight(j),
    decreases s.len(),
{
    if s.len() == 0 {
        assert(s.push(j)[0] == j);
        assert(s.push(j).drop_first() =~= Seq::<Job>::empty());
        assert(qweight(Seq::<Job>::empty()) == 0);
    } else {
        assert(s.push(j)[0] == s[0]);
        assert(s.push(j).drop_first() =~= s.drop_first().push(j));
        lemma_qweight_push(s.drop_first(), j);
    }
}

/// One job relates the coordinator before it to the coordinator after it
/// and fixes the response it yields, if any: a no-op and a message whose
/// envelope does not decode answer nothing and leave the state; a decoded
/// envelope answers exactly one response fixed by the dispatch result, with
/// the state moved per `dispatch_state` on success.
pub open spec fn job_step(c0: Coordinator, job: Job, c1: Coordinator, r: Option<Response>) -> bool {
    match job {
        Job::NoOp => c1 == c0 && r is None,
        Job::Process(raw) => match json_parse(raw@) {
            None => c1 == c0 && r is None,
            Some(env) => match env_text(env, 0) {
                None => c1 == c0 && r is None,
                Some(mid) => match env_text(env, 1) {
                    None => c1 == c0 && r is None,
                    Some(cmd) => r matches Some(resp) && resp.request_id@ == mid && res_rep(
                        resp.body,
                    ) == dispatch_result(cmd, c0, env) && (resp.body is Err ==> c1 == c0) && (
                    resp.body is Ok ==> dispatch_state(cmd, c0, env, c1)),
                },
            },
        },
    }
}

/// One executed job, as the consumer sees it: the message step, after which
/// the fired event tokens are acted on and cleared; `fired` says whether the
/// stop handler's token was among them.
pub open spec fn executed_step(
    c0: Coordinator,
    job: Job,
    c1: Coordinator,
    r: Option<Response>,
    fired: bool,
    token: u64,
) -> bool {
    match job {
        Job::NoOp => c1 == c0 && r is None && !fired,
        Job::Process(_) => exists|cm: Coordinator|
            {
                &&& #[trigger] job_step(c0, job, cm, r)
                &&& c1 == (Coordinator { pending_events: c1.pending_events, ..cm })
                &&& c1.pending_events@.len() == 0
                &&& fired == cm.pending_events@.contains(token)
            },
    }
}

/// A whole drain: the executed jobs chain the coordinator from `c0` to
/// `c1` step by step, yield exactly the responses `rs` in order, and the run
/// flag falls when and only when a drained message fired the stop handler's
/// token.
pub open spec fn drained(
    c0: Coordinator,
    running0: bool,
    jobs: Seq<Job>,
    c1: Coordinator,
    running1: bool,
    rs: Seq<Response>,
    token: u64,
) -> bool
    decreases jobs.len(),
{
    if jobs.len() == 0 {
        c1 == c0 && running1 == running0 && rs.len() == 0
    } else {
        exists|cm: Coordinator, fired: bool, ro: Option<Response>|
            {
                &&& #[trigger] executed_step(c0, jobs[0], cm, ro, fired, token)
                &&& (match ro {
                    Some(resp) => rs.len() > 0 && rs[0] == resp && drained(
                        cm,
                        running0 && !fired,
                        jobs.drop_first(),
                        c1,
                        running1,
                        rs.drop_first(),
                        token,
                    ),
                    None => drained(
                        cm,
                        running0 && !fired,
                        jobs.drop_first(),
                        c1,
                        running1,
                        rs,
                        token,
                    ),
                })
            }
    }
}

/// Appending one executed step to a drain keeps it a drain.
pub proof fn lemma_drained_snoc(
    c0: Coordinator,
    running0: bool,
    jobs: Seq<Job>,
    cm: Coordinator,
    runningm: bool,
    rs: Seq<Response>,
    job: Job,
    c1: Coordinator,
    running1: bool,
    ro: Option<Response>,
    fired: bool,
    token: u64,
)
    requires
        drained(c0, running0, jobs, cm, runningm, rs, token),
        executed_step(cm, job, c1, ro, fired, token),
        running1 == (runningm && !fired),
    ensures
        match ro {
            Some(resp) => drained(c0, running0, jobs.push(job), c1, running1, rs.push(resp), token),
            None => drained(c0, running0, jobs.push(job), c1, running1, rs, token),
        },
    decreases jobs.len(),
{
    assert(jobs.push(job)[0] == if jobs.len() == 0 { job } else { jobs[0] });
    assert(jobs.push(job).drop_first() =~= if jobs.len() == 0 {
        Seq::<Job>::empty()
    } else {
        jobs.drop_first().push(job)
    });
    if jobs.len() == 0 {
        match ro {
            Some(resp) => {
                assert(rs.push(resp)[0] == resp);
                assert(rs.push(resp).drop_first() =~= Seq::<Response>::empty());
                assert(drained(
                    c1,
                    running0 && !fired,
                    Seq::<Job>::empty(),
                    c1,
                    running1,
                    Seq::<Response>::empty(),
                    token,
                ));
            },
            None => {
                assert(drained(c1, running0 && !fired, Seq::<Job>::empty(), c1, running1, rs, token));
            },
        }
    } else {
        let (cm0, fired0, ro0) = choose|cm0: Coordinator, fired0: bool, ro0: Option<Response>|
            {
                &&& #[trigger] executed_step(c0, jobs[0], cm0, ro0, fired0, token)
                &&& (match ro0 {
                    Some(resp) => rs.len() > 0 && rs[0] == resp && drained(
                        cm0,
                        running0 && !fired0,
                        jobs.drop_first(),
                        cm,
                        runningm,
                        rs.drop_first(),
                        token,
                    ),
                    None => drained(
                        cm0,
                        running0 && !fired0,
                        jobs.drop_first(),
                        cm,
                        runningm,
                        rs,
                        token,
                    ),
                })
            };
        match ro0 {
            Some(resp0) => {
                lemma_drained_snoc(
                    cm0,
                    running0 && !fired0,
                    jobs.drop_first(),
                    cm,
                    runningm,
                    rs.drop_first(),
                    job,
                    c1,
                    running1,
                    ro,
                    fired,
                    token,
                );
                match ro {
                    Some(resp) => {
                        assert(rs.push(resp)[0] == rs[0]);
                        assert(rs.push(resp).drop_first() =~= rs.drop_first().push(resp));
                    },
                    None => {},
                }
            },
            None => {
                lemma_drained_snoc(
                    cm0,
                    running0 && !fired0,
                    jobs.drop_first(),
                    cm,
                    runningm,
                    rs,
                    job,
                    c1,
                    running1,
                    ro,
                    fired,
                    token,
                );
            },
        }
    }
}

/// The explicit context of the process: the run flag, the job queue, the
/// coordinator, and the token under which the stop handler is bound to the
/// app-shutdown event.
pub struct Core {
    pub running: bool,
    pub jobs: Vec<Job>,
    pub coord: Coordinator,
    pub stop_token: u64,
}

impl Core {
    /// The state every operation of the pipeline preserves.
    pub open spec fn wf(self) -> bool {
        &&& self.coord.wf()
        &&& self.coord.sync.next_id <= 0x7fff_ffff_ffff_ffff
    }
}

/// Builds the context the process runs in: the flag up, the queue empty, a
/// fresh coordinator, and the stop handler bound to the app-shutdown event.
pub fn init() -> (r: Core)
    ensures
        r.running,
        r.jobs@ == Seq::<Job>::empty(),
        r.coord.events.bindings@ == seq![(EventKind::AppShutdown, r.stop_token)],
        r.coord.pending_events@.len() == 0,
        r.coord.sync.pending@.len() == 0,
        r.coord.sync.frozen@.len() == 0,
        r.coord.search is None,
        r.coord.user is None,
        r.wf(),
{
    let mut coord = Coordinator::new();
    let token = coord.events.bind(EventKind::AppShutdown);
    proof {
        assert(coord.events.bindings@ =~= seq![(EventKind::AppShutdown, token)]);
    }
    Core { running: true, jobs: Vec::new(), coord, stop_token: token }
}

/// Queues a job for the consumer; callable from any producer.
pub fn push_job(core: &mut Core, job: Job)
    ensures
        final(core).jobs@ == old(core).jobs@.push(job),
        final(core).running == old(core).running,
        final(core).coord == old(core).coord,
        final(core).stop_token == old(core).stop_token,
{
    core.jobs.push(job);
}

/// Requests a stop: lowers the run flag, then pushes one no-op job.  The
/// order is load-bearing: the consumer may be blocked in a pop, and only a
/// job wakes it to re-check the flag.
pub fn stop(core: &mut Core)
    ensures
        !final(core).running,
        final(core).jobs@ == old(core).jobs@.push(Job::NoOp),
        final(core).coord == old(core).coord,
        final(core).stop_token == old(core).stop_token,
{
    core.running = false;
    core.jobs.push(Job::NoOp);
}

/// Executes one job.  Processing a message may fire the app-shutdown
/// handler, in which case the stop request runs here: the flag falls and one
/// no-op lands at the back of the queue.
fn execute_job(core: &mut Core, job: &Job) -> (r: Option<Response>)
    requires
        old(core).wf(),
    ensures
        final(core).wf(),
        final(core).stop_token == old(core).stop_token,
        final(core).jobs@ == old(core).jobs@ || final(core).jobs@ == old(core).jobs@.push(
            Job::NoOp,
        ),
        *job is NoOp ==> *final(core) == *old(core) && r is None,
        exists|fired: bool|
            {
                &&& #[trigger] executed_step(
                    old(core).coord,
                    *job,
                    final(core).coord,
                    r,
                    fired,
                    old(core).stop_token,
                )
                &&& final(core).running == (old(core).running && !fired)
                &&& final(core).jobs@ == (if fired {
                    old(core).jobs@.push(Job::NoOp)
                } else {
                    old(core).jobs@
                })
            },
{
    match job {
        Job::NoOp => {
            proof {
                assert(executed_step(
                    old(core).coord,
                    *job,
                    core.coord,
                    None::<Response>,
                    false,
                    old(core).stop_token,
                ));
            }
            None
        },
        Job::Process(raw) => {
            let outcome = process(&mut core.coord, raw.as_str());
            let ret = match outcome {
                Ok(resp) => Some(resp),
                Err(_) => None,
            };
            let ghost cm = core.coord;
            proof {
                assert(job_step(old(core).coord, *job, cm, ret));
            }
            let mut fired_stop = false;
            let mut idx: usize = 0;
            while idx < core.coord.pending_events.len()
                invariant
                    idx <= core.coord.pending_events@.len(),
                    core.coord == cm,
                    core.jobs == old(core).jobs,
                    core.running == old(core).running,
                    core.stop_token == old(core).stop_token,
                    fired_stop == cm.pending_events@.subrange(0, idx as int).contains(
                        old(core).stop_token,
                    ),
                decreases core.coord.pending_events@.len() - idx,
            {
                let ghost seen = cm.pending_events@.subrange(0, idx as int);
                proof {
                    assert(cm.pending_events@.subrange(0, idx as int + 1) =~= seen.push(
                        cm.pending_events@[idx as int],
                    ));
                    if seen.push(cm.pending_events@[idx as int]).contains(old(core).stop_token) {
                        let w = choose|w: int|
                            0 <= w < seen.len() + 1 && seen.push(cm.pending_events@[idx as int])[w]
                                == old(core).stop_token;
                        if w < seen.len() {
                            assert(seen[w] == old(core).stop_token);
                        }
                    }
                    if seen.contains(old(core).stop_token) {
                        let w = choose|w: int| 0 <= w < seen.len() && seen[w] == old(
                            core,
                        ).stop_token;
                        assert(seen.push(cm.pending_events@[idx as int])[w] == old(
                            core,
                        ).stop_token);
                    }
                }
                if core.coord.pending_events[idx] == core.stop_token {
                    fired_stop = true;
                    proof {
                        assert(cm.pending_events@.subrange(0, idx as int + 1).last() == old(
                            core,
                        ).stop_token);
                    }
                }
                idx += 1;
            }
            proof {
                assert(cm.pending_events@.subrange(0, cm.pending_events@.len() as int)
                    =~= cm.pending_events@);
            }
            core.coord.pending_events = Vec::new();
            if fired_stop {
                core.running = false;
                core.jobs.push(Job::NoOp);
            }
            proof {
                assert(core.coord == (Coordinator {
                    pending_events: core.coord.pending_events,
                    ..cm
                }));
                assert(executed_step(
                    old(core).coord,
                    *job,
                    core.coord,
                    ret,
                    fired_stop,
                    old(core).stop_token,
                ));
            }
            ret
        },
    }
}

/// Drains the queue: pops and executes one job at a time, front first, until
/// none is left, and answers the jobs executed (in order) and the responses
/// their messages produced.  Every job present at the call, and every job a
/// handler pushed while it ran, is executed before this returns — so a stop
/// request is honoured only after the queue up to and including its no-op has
/// run, and jobs pushed after the return are untouched.  In the process this
/// function is the body of the consumer loop: the harness around it blocks
/// for new jobs while the flag is up.
pub fn run(core: &mut Core) -> (r: (Vec<Job>, Vec<Response>))
    requires
        old(core).wf(),
    ensures
        final(core).wf(),
        final(core).jobs@.len() == 0,
        final(core).stop_token == old(core).stop_token,
        old(core).jobs@.is_prefix_of(r.0@),
        drained(
            old(core).coord,
            old(core).running,
            r.0@,
            final(core).coord,
            final(core).running,
            r.1@,
            old(core).stop_token,
        ),
{
    let mut executed: Vec<Job> = Vec::new();
    let mut responses: Vec<Response> = Vec::new();
    proof {
        lemma_qweight_bounds(core.jobs@);
        assert(drained(
            old(core).coord,
            old(core).running,
            executed@,
            core.coord,
            core.running,
            responses@,
            old(core).stop_token,
        ));
    }
    while core.jobs.len() > 0
        invariant
            core.wf(),
            core.stop_token == old(core).stop_token,
            old(core).jobs@.is_prefix_of(executed@ + core.jobs@),
            drained(
                old(core).coord,
                old(core).running,
                executed@,
                core.coord,
                core.running,
                responses@,
                old(core).stop_token,
            ),
        decreases qweight(core.jobs@),
    {
        let ghost pre_jobs = core.jobs@;
        let job = core.jobs.remove(0);
        proof {
            assert(core.jobs@ =~= pre_jobs.drop_first());
            lemma_qweight_bounds(core.jobs@);
        }
        let ghost mid_jobs = core.jobs@;
        let ghost pre_exec = executed@;
        let ghost pre_resp = responses@;
        let ghost pre_coord = core.coord;
        let ghost pre_running = core.running;
        let response = execute_job(core, &job);
        let ghost ro = response;
        proof {
            if core.jobs@ == mid_jobs.push(Job::NoOp) {
                lemma_qweight_push(mid_jobs, Job::NoOp);
                assert(!(job is NoOp));
            }
            assert(qweight(core.jobs@) < qweight(pre_jobs));
            let fired = choose|fired: bool|
                {
                    &&& #[trigger] executed_step(
                        pre_coord,
                        job,
                        core.coord,
                        ro,
                        fired,
                        old(core).stop_token,
                    )
                    &&& core.running == (pre_running && !fired)
                    &&& core.jobs@ == (if fired {
                        mid_jobs.push(Job::NoOp)
                    } else {
                        mid_jobs
                    })
                };
            lemma_drained_snoc(
                old(core).coord,
                old(core).running,
                pre_exec,
                pre_coord,
                pre_running,
                pre_resp,
                job,
                core.coord,
                core.running,
                ro,
                fired,
                old(core).stop_token,
            );
        }
        executed.push(job);
        match response {
            Some(resp) => responses.push(resp),
            None => {},
        }
        proof {
            assert(executed@ =~= pre_exec.push(job));
            match ro {
                Some(resp) => {
                    assert(responses@ =~= pre_resp.push(resp));
                },
                None => {
                    assert(responses@ =~= pre_resp);
                },
            }
            assert(pre_exec + pre_jobs =~= executed@ + mid_jobs);
            if core.jobs@ == mid_jobs.push(Job::NoOp) {
                assert(executed@ + core.jobs@ =~= (executed@ + mid_jobs).push(Job::NoOp));
                assert(old(core).jobs@.is_prefix_of(executed@ + core.jobs@)) by {
                    let whole = executed@ + mid_jobs;
                    assert(old(core).jobs@.is_prefix_of(whole));
                    assert(whole.push(Job::NoOp).subrange(0, old(core).jobs@.len() as int)
                        =~= whole.subrange(0, old(core).jobs@.len() as int));
                }
            } else {
                assert(executed@ + core.jobs@ =~= pre_exec + pre_jobs);
            }
        }
    }
    proof {
        assert(executed@ + core.jobs@ =~= executed@);
    }
    (executed, responses)
}

} // verus!
