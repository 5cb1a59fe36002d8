//! What holds of every course that the handling of a request can take.

use vstd::prelude::*;

use crate::backend::RequestContext;
use crate::cli::Cli;
use crate::routing::{
    Action, BodyError, ErrorCause, Event, ExchangeModel, HandlerState, Phase, Retries, RouterError,
};
use crate::time::TimeSpan;

verus! {

/// A course that the handling of a request can take: what happened, what was to be done at first
/// and after each event, and how far the request had come each time.
pub struct Course {
    pub events: Seq<Event>,
    pub actions: Seq<Action>,
    pub stages: Seq<ExchangeModel>,
}

impl Course {
    /// Each event could occur where it did, and led to the next stage and the next action.
    pub open spec fn valid(self) -> bool {
        &&& self.stages.len() == self.events.len() + 1
        &&& self.actions.len() == self.events.len() + 1
        &&& forall|i: int|
            #![trigger self.events[i]]
            0 <= i < self.events.len() ==> {
                &&& crate::routing::can_occur(self.stages[i].phase, self.events[i])
                &&& self.stages[i].moves(
                    self.events[i],
                    self.stages[i + 1],
                    self.actions[i + 1],
                )
            }
    }

    /// It began as a request that is accepted begins, with the body of this size.
    pub open spec fn begins(self, state: HandlerState, body_size: Option<u64>) -> bool {
        &&& self.stages.len() > 0
        &&& self.actions.len() > 0
        &&& self.stages[0].state == state
        &&& self.stages[0].retries is None
        &&& (self.stages[0].phase, self.actions[0]) == crate::routing::first_step(
            state,
            true,
            true,
            body_size,
        )
    }

    /// The same course, one event earlier.
    pub open spec fn before(self) -> Course {
        Course {
            events: self.events.drop_last(),
            actions: self.actions.drop_last(),
            stages: self.stages.drop_last(),
        }
    }

    /// How far the request has come.
    pub open spec fn stage(self) -> ExchangeModel {
        self.stages.last()
    }
}

/// How often the router could not execute the request.
pub open spec fn failures(events: Seq<Event>) -> nat
    decreases events.len(),
{
    if events.len() == 0 {
        0
    } else {
        failures(events.drop_last()) + (if events.last() is ExecuteFailed {
            1nat
        } else {
            0nat
        })
    }
}

/// A failure of a backend, as opposed to there being no healthy one.
pub open spec fn is_backend_failure(event: Event) -> bool {
    match event {
        Event::ExecuteFailed(RouterError::Inner(_)) => true,
        _ => false,
    }
}

/// How often a backend failed.
pub open spec fn backend_failures(events: Seq<Event>) -> nat
    decreases events.len(),
{
    if events.len() == 0 {
        0
    } else {
        backend_failures(events.drop_last()) + (if is_backend_failure(events.last()) {
            1nat
        } else {
            0nat
        })
    }
}

/// How often the request was to be executed.
pub open spec fn executions(actions: Seq<Action>) -> nat
    decreases actions.len(),
{
    if actions.len() == 0 {
        0
    } else {
        executions(actions.drop_last()) + (if actions.last() is Execute {
            1nat
        } else {
            0nat
        })
    }
}

/// How often a backend responded.
pub open spec fn responses(events: Seq<Event>) -> nat
    decreases events.len(),
{
    if events.len() == 0 {
        0
    } else {
        responses(events.drop_last()) + (if events.last() is Executed {
            1nat
        } else {
            0nat
        })
    }
}

/// The time to sleep after a failure of a backend, once this many have occurred.
pub open spec fn backoff(state: HandlerState, count: nat) -> nat {
    state.retry_interval@ * vstd::arithmetic::power2::pow2(count)
}

/// What the events so far say about a request that is buffered, or was to be.
spec fn accounts(course: Course, state: HandlerState) -> bool {
    let stage = course.stage();
    let failed = failures(course.events);
    let backend_failed = backend_failures(course.events);
    let executed = executions(course.actions);
    let responded = responses(course.events);
    let length = course.events.len();
    let attempts = state.retry_attempts;
    &&& stage.state == state
    &&& length > 0 && !(stage.phase is Finished) ==> course.events[0] is RequestBuffered
    &&& stage.retries matches Some(Retries(n)) ==> n == failed && failed < attempts
    &&& match stage.phase {
        Phase::BufferingRequest => {
            failed == 0 && backend_failed == 0 && executed == 0 && responded == 0 && length == 0
                && stage.retries is None
        },
        Phase::Attempting(left, delay) => {
            &&& 1 <= left
            &&& left + failed == attempts
            &&& delay@ == backoff(state, backend_failed)
            &&& executed == failed + 1
            &&& responded == 0
            &&& length == 2 * failed + 1
            &&& stage.retries is None
            &&& course.actions.last() is Execute
        },
        Phase::Waiting(left, delay, cause) => {
            &&& 1 <= left
            &&& left + failed == attempts + 1
            &&& executed == failed
            &&& responded == 0
            &&& length == 2 * failed
            &&& stage.retries is None
            &&& failed > 0
            &&& course.events.last() matches Event::ExecuteFailed(e)
            &&& cause == crate::routing::cause_of(e)
            &&& if cause is BackendRequestError {
                backend_failed > 0 && delay@ == backoff(state, (backend_failed - 1) as nat)
            } else {
                delay@ == backoff(state, backend_failed)
            }
        },
        Phase::BufferingResponse => {
            &&& executed == failed + 1
            &&& responded == 1
            &&& length == 2 * failed + 2
            &&& failed < attempts
            &&& stage.retries is Some
        },
        Phase::Finished => {
            &&& length <= 2 * attempts + 1
            &&& executed <= attempts
            &&& failed <= attempts
            &&& {
                ||| responded == 1 && executed == failed + 1
                ||| responded == 0 && executed == attempts && failed == attempts
                ||| responded == 0 && executed == 0 && failed == 0 && length == 1
                    && course.events[0] is RequestBufferFailed
            }
            &&& executed > 0 ==> course.events[0] is RequestBuffered
            &&& course.actions.last() matches Action::Fail(cause) ==> {
                (cause is BackendRequestError || cause is NoHealthyBackends) ==> {
                    &&& failed == attempts
                    &&& length >= 2
                    &&& course.events[length - 2] matches Event::ExecuteFailed(e)
                    &&& cause == crate::routing::cause_of(e)
                }
            }
            &&& course.actions.last() is Respond ==> stage.retries is Some
        },
        Phase::Forwarding => false,
    }
}

proof fn accounts_hold(course: Course, state: HandlerState, body_size: Option<u64>)
    requires
        course.valid(),
        course.begins(state, body_size),
        state.buffers_request(body_size),
        state.retry_attempts >= 1,
    ensures
        accounts(course, state),
    decreases course.events.len(),
{
    if course.events.len() == 0 {
        assert(course.actions.drop_last() =~= Seq::empty());
        reveal_with_fuel(executions, 2);
    } else {
        let earlier = course.before();
        let n = course.events.len() as int;
        earlier_is_valid(course);
        accounts_hold(earlier, state, body_size);
        let event = course.events[n - 1];
        assert(course.stages[n - 1].moves(event, course.stage(), course.actions.last()));
        assert(earlier.stage() == course.stages[n - 1]);
        assert(failures(course.events) == failures(earlier.events) + (if event is ExecuteFailed {
            1nat
        } else {
            0nat
        }));
        assert(backend_failures(course.events) == backend_failures(earlier.events) + (
        if is_backend_failure(event) {
            1nat
        } else {
            0nat
        }));
        assert(executions(course.actions) == executions(earlier.actions) + (
        if course.actions.last() is Execute {
            1nat
        } else {
            0nat
        }));
        assert(responses(course.events) == responses(earlier.events) + (if event is Executed {
            1nat
        } else {
            0nat
        }));
        match earlier.stage().phase {
            Phase::BufferingRequest => {
                assert(backoff(state, 0) == state.retry_interval@) by {
                    vstd::arithmetic::power2::lemma2_to64();
                }
                assert(accounts(course, state));
            },
            Phase::Attempting(_, _) => {
                assert(accounts(course, state));
            },
            Phase::Waiting(_, delay, cause) => {
                if cause is BackendRequestError {
                    backoff_doubles(state, (backend_failures(earlier.events) - 1) as nat);
                }
                assert(accounts(course, state));
            },
            _ => {
                assert(accounts(course, state));
            },
        }
    }
}

/// With each failure of a backend the time to sleep doubles.
proof fn backoff_doubles(state: HandlerState, count: nat)
    ensures
        backoff(state, count + 1) == 2 * backoff(state, count),
{
    vstd::arithmetic::power2::lemma_pow2_unfold(count + 1);
    let p = vstd::arithmetic::power2::pow2(count);
    let r = state.retry_interval@;
    assert(r * (2 * p) == 2 * (r * p)) by (nonlinear_arith);
}

/// What the events so far say about a request that is not buffered.
spec fn forwards_once(course: Course, state: HandlerState) -> bool {
    let stage = course.stage();
    &&& stage.state == state
    &&& stage.retries is None
    &&& executions(course.actions) == 1
    &&& !(course.actions.last() is Sleep)
    &&& match stage.phase {
        Phase::Forwarding => {
            course.events.len() == 0 && failures(course.events) == 0 && responses(course.events)
                == 0
        },
        Phase::BufferingResponse => {
            course.events.len() == 1 && failures(course.events) == 0 && responses(course.events)
                == 1
        },
        Phase::Finished => {
            &&& 1 <= course.events.len() <= 2
            &&& failures(course.events) <= 1
            &&& responses(course.events) <= 1
            &&& course.actions.last() is Respond ==> failures(course.events) == 0
        },
        _ => false,
    }
}

proof fn forwards_once_holds(course: Course, state: HandlerState, body_size: Option<u64>)
    requires
        course.valid(),
        course.begins(state, body_size),
        !state.buffers_request(body_size),
    ensures
        forwards_once(course, state),
    decreases course.events.len(),
{
    if course.events.len() == 0 {
        assert(course.actions.drop_last() =~= Seq::empty());
        reveal_with_fuel(executions, 2);
    } else {
        let earlier = course.before();
        let n = course.events.len() as int;
        earlier_is_valid(course);
        forwards_once_holds(earlier, state, body_size);
        let event = course.events[n - 1];
        assert(course.stages[n - 1].moves(event, course.stage(), course.actions.last()));
        assert(earlier.stage() == course.stages[n - 1]);
    }
}

/// A course is valid up to any of its events.
proof fn earlier_is_valid(course: Course)
    requires
        course.valid(),
        course.events.len() > 0,
    ensures
        course.before().valid(),
{
    let earlier = course.before();
    assert forall|i: int| #![trigger earlier.events[i]] 0 <= i < earlier.events.len() implies {
        &&& crate::routing::can_occur(earlier.stages[i].phase, earlier.events[i])
        &&& earlier.stages[i].moves(
            earlier.events[i],
            earlier.stages[i + 1],
            earlier.actions[i + 1],
        )
    } by {
        assert(course.events[i] == earlier.events[i]);
    }
}

/// Valid settings allow for at least one attempt, as the other laws ask for.
pub proof fn valid_settings_allow_an_attempt(
    cli: Cli,
    state: HandlerState,
    retry_interval_no_healthy_nodes: TimeSpan,
)
    requires
        cli.retry.valid(),
        state.follows(cli, retry_interval_no_healthy_nodes),
    ensures
        state.retry_attempts >= 1,
{
}

/// A buffered request is executed at most as often as there are attempts, and any other request
/// at most once.
pub proof fn executions_are_bounded(
    course: Course,
    state: HandlerState,
    body_size: Option<u64>,
)
    requires
        course.valid(),
        course.begins(state, body_size),
        state.retry_attempts >= 1,
    ensures
        executions(course.actions) <= (if state.buffers_request(body_size) {
            state.retry_attempts as nat
        } else {
            1
        }),
{
    if state.buffers_request(body_size) {
        accounts_hold(course, state, body_size);
    } else {
        forwards_once_holds(course, state, body_size);
    }
}

/// How often a request was executed once it has been handled. One that is not buffered was executed
/// once. One that is buffered was not executed if its body could not be buffered. Otherwise it was
/// executed once more than it failed, if a backend has responded, and as often as there are
/// attempts, all of which failed, if none has.
pub proof fn executions_are_counted(course: Course, state: HandlerState, body_size: Option<u64>)
    requires
        course.valid(),
        course.begins(state, body_size),
        state.retry_attempts >= 1,
        course.stage().phase is Finished,
    ensures
        course.events.len() > 0,
        executions(course.actions) == (if !state.buffers_request(body_size) {
            1
        } else if course.events[0] is RequestBufferFailed {
            0
        } else if responses(course.events) > 0 {
            failures(course.events) + 1
        } else {
            state.retry_attempts as nat
        }),
        state.buffers_request(body_size) && !(course.events[0] is RequestBufferFailed)
            && responses(course.events) == 0 ==> failures(course.events) == state.retry_attempts,
        responses(course.events) <= 1,
{
    if state.buffers_request(body_size) {
        accounts_hold(course, state, body_size);
    } else {
        forwards_once_holds(course, state, body_size);
    }
}

/// A request is executed a second time only if its body has a known size below the limit.
pub proof fn only_buffered_requests_are_retried(
    course: Course,
    state: HandlerState,
    body_size: Option<u64>,
)
    requires
        course.valid(),
        course.begins(state, body_size),
        state.retry_attempts >= 1,
        executions(course.actions) > 1,
    ensures
        body_size matches Some(size) && size < state.request_body_size_limit,
        state.retry_attempts > 1,
{
    executions_are_bounded(course, state, body_size);
}

/// Once there is a response, what is left is to buffer it and to return it.
proof fn after_a_response(course: Course, i: int, j: int)
    requires
        course.valid(),
        0 <= i < j <= course.events.len(),
        course.events[i] is Executed,
    ensures
        course.stages[j].phase is BufferingResponse || course.stages[j].phase is Finished,
        !(course.actions[j] is Execute),
    decreases j,
{
    let event = course.events[j - 1];
    assert(course.stages[j - 1].moves(event, course.stages[j], course.actions[j]));
    if i < j - 1 {
        after_a_response(course, i, j - 1);
    }
}

/// Only failures to execute a request lead to another attempt. Once a backend has responded, with
/// whatever status code, the request is not executed again.
pub proof fn responses_are_not_retried(course: Course, i: int, j: int)
    requires
        course.valid(),
        0 <= i < j <= course.events.len(),
        course.events[i] is Executed,
    ensures
        !(course.actions[j] is Execute),
{
    after_a_response(course, i, j);
}

/// The number of retries that comes with the response to a buffered request is the number of
/// attempts that failed. The response to any other request comes with none.
pub proof fn retries_count_failures(course: Course, state: HandlerState, body_size: Option<u64>)
    requires
        course.valid(),
        course.begins(state, body_size),
        state.retry_attempts >= 1,
        course.actions.last() is Respond,
    ensures
        match course.stage().retries {
            Some(Retries(n)) => {
                state.buffers_request(body_size) && n == failures(course.events)
            },
            None => !state.buffers_request(body_size) && failures(course.events) == 0,
        },
{
    if state.buffers_request(body_size) {
        accounts_hold(course, state, body_size);
        last_move(course);
    } else {
        forwards_once_holds(course, state, body_size);
        last_move(course);
    }
}

/// What the last event did.
proof fn last_move(course: Course)
    requires
        course.valid(),
    ensures
        course.events.len() > 0 ==> {
            let n = course.events.len() as int;
            &&& crate::routing::can_occur(course.stages[n - 1].phase, course.events[n - 1])
            &&& course.stages[n - 1].moves(
                course.events[n - 1],
                course.stage(),
                course.actions.last(),
            )
        },
{
    if course.events.len() > 0 {
        let n = course.events.len() as int;
        assert(course.stages[n - 1].moves(
            course.events[n - 1],
            course.stages[n - 1 + 1],
            course.actions[n - 1 + 1],
        ));
    }
}

/// The first failure of a backend is followed by a sleep of the retry interval, and each further
/// one by a sleep twice as long. While there are no healthy backends, the sleep has a length of
/// its own.
pub proof fn sleeps_back_off(course: Course, state: HandlerState, body_size: Option<u64>)
    requires
        course.valid(),
        course.begins(state, body_size),
        state.retry_attempts >= 1,
        course.events.len() > 0,
        course.actions.last() is Sleep,
    ensures
        course.actions.last() matches Action::Sleep(pause) && if is_backend_failure(
            course.events.last(),
        ) {
            &&& backend_failures(course.events) > 0
            &&& pause@ == backoff(state, (backend_failures(course.events) - 1) as nat)
        } else {
            &&& course.events.last() == Event::ExecuteFailed(RouterError::NoHealthyNodes)
            &&& pause == state.retry_interval_no_healthy_nodes
        },
{
    last_move(course);
    if state.buffers_request(body_size) {
        accounts_hold(course, state, body_size);
        earlier_is_valid(course);
        accounts_hold(course.before(), state, body_size);
        assert(course.before().stage() == course.stages[course.events.len() - 1]);
    } else {
        forwards_once_holds(course, state, body_size);
    }
}

/// A buffered request is answered with the error of an attempt only after every attempt failed,
/// and then with the error of the last one.
pub proof fn last_error_is_reported(course: Course, state: HandlerState, body_size: Option<u64>)
    requires
        course.valid(),
        course.begins(state, body_size),
        state.retry_attempts >= 1,
        state.buffers_request(body_size),
        course.actions.last() matches Action::Fail(cause) && (cause is BackendRequestError
            || cause is NoHealthyBackends),
    ensures
        failures(course.events) == state.retry_attempts,
        course.events.len() >= 2,
        course.events[course.events.len() - 2] matches Event::ExecuteFailed(e)
            && course.actions.last() == Action::Fail(crate::routing::cause_of(e)),
{
    accounts_hold(course, state, body_size);
    last_move(course);
}

/// Every request comes to an end: no course is longer than the attempts allow, and a course is at
/// its end exactly when a response, be it one of an error, is to be returned.
pub proof fn every_request_ends(course: Course, state: HandlerState, body_size: Option<u64>)
    requires
        course.valid(),
        course.begins(state, body_size),
        state.retry_attempts >= 1,
    ensures
        course.events.len() <= 2 * state.retry_attempts + 1,
        course.stage().phase is Finished <==> course.actions.last() is Respond
            || course.actions.last() is Fail,
{
    last_move(course);
    if state.buffers_request(body_size) {
        accounts_hold(course, state, body_size);
    } else {
        forwards_once_holds(course, state, body_size);
    }
}

/// A failure of a backend is a failure.
proof fn backend_failures_are_failures(events: Seq<Event>)
    ensures
        backend_failures(events) <= failures(events),
    decreases events.len(),
{
    if events.len() > 0 {
        backend_failures_are_failures(events.drop_last());
    }
}

/// The more backends have failed, the longer the sleep.
proof fn backoff_grows(state: HandlerState, low: nat, high: nat)
    requires
        low <= high,
    ensures
        backoff(state, low) <= backoff(state, high),
    decreases high,
{
    if low < high {
        backoff_grows(state, low, (high - 1) as nat);
        backoff_doubles(state, (high - 1) as nat);
    }
}

/// As long as the retry interval, doubled once for each attempt, is a span of time, a request that
/// waits can go on when the sleep is over.
pub proof fn sleeps_can_end(course: Course, state: HandlerState, body_size: Option<u64>)
    requires
        course.valid(),
        course.begins(state, body_size),
        state.retry_attempts >= 1,
        backoff(state, state.retry_attempts as nat) <= crate::time::max_span(),
        course.stage().phase is Waiting,
    ensures
        crate::routing::can_occur(course.stage().phase, Event::Slept),
{
    if state.buffers_request(body_size) {
        accounts_hold(course, state, body_size);
        let count = backend_failures(course.events);
        backend_failures_are_failures(course.events);
        if count > 0 {
            backoff_doubles(state, (count - 1) as nat);
        }
        backoff_grows(state, count, state.retry_attempts as nat);
    } else {
        forwards_once_holds(course, state, body_size);
    }
}

/// How a request begins. One without an authority is refused, and so is one that comes when no
/// router is ready. Any other is buffered, under the limits for requests, exactly if its size is
/// known and smaller than the limit and if it may have to be sent again or buffering was asked
/// for. Otherwise it is executed.
pub proof fn requests_begin_as_asked(
    state: HandlerState,
    has_authority: bool,
    router_ready: bool,
    body_size: Option<u64>,
)
    ensures
        ({
            let action = crate::routing::first_step(
                state,
                has_authority,
                router_ready,
                body_size,
            ).1;
            let small = body_size is Some && body_size->0 < state.request_body_size_limit;
            let wanted = state.retry_attempts > 1 || state.request_body_buffer;
            &&& !has_authority ==> action == Action::Fail(ErrorCause::NoAuthority)
            &&& has_authority && !router_ready ==> action == Action::Fail(
                ErrorCause::ServiceNotReady,
            )
            &&& has_authority && router_ready && small && wanted ==> action
                == Action::BufferRequest(state.request_body_size_limit, state.request_body_timeout)
            &&& has_authority && router_ready && !(small && wanted) ==> action == Action::Execute
        }),
{
}

/// A response is buffered exactly if that was asked for and its size is known and smaller than the
/// limit for responses. It is buffered under that very limit, into which it fits, and within the
/// time for responses. Otherwise it is returned as it is.
pub proof fn responses_are_buffered_within_their_limits(state: HandlerState, size: Option<u64>)
    ensures
        ({
            let action = crate::routing::on_response(state, size).1;
            let small = size is Some && size->0 < state.response_body_size_limit;
            &&& action matches Action::BufferResponse(limit, time) ==> {
                &&& limit == state.response_body_size_limit
                &&& time == state.response_body_timeout
                &&& size is Some
                &&& size->0 < limit
                &&& state.response_body_buffer
            }
            &&& state.response_body_buffer && small ==> action is BufferResponse
            &&& !(state.response_body_buffer && small) ==> action == Action::Respond
        }),
{
}

/// What the settings make of a request and of a response. A request whose body is known to be
/// smaller than the limit is buffered under that limit and within its time, if there is more than
/// one attempt or if buffering was asked for. The same holds of responses and their own limits.
/// There are as many attempts as the settings say, and the first sleep is the one they say.
pub proof fn settings_reach_the_requests(
    cli: Cli,
    retry_interval_no_healthy_nodes: TimeSpan,
    state: HandlerState,
    size: Option<u64>,
)
    requires
        state.follows(cli, retry_interval_no_healthy_nodes),
    ensures
        ({
            let request = crate::routing::first_step(state, true, true, size).1;
            let response = crate::routing::on_response(state, size).1;
            let wanted = cli.retry.retry_attempts > 1 || cli.network.network_request_body_buffer;
            &&& request == (if wanted && size is Some && size->0
                < cli.limits.limits_request_body_size {
                Action::BufferRequest(
                    cli.limits.limits_request_body_size,
                    cli.limits.limits_request_body_timeout,
                )
            } else {
                Action::Execute
            })
            &&& response == (if cli.network.network_response_body_buffer && size is Some && size->0
                < cli.limits.limits_response_body_size {
                Action::BufferResponse(
                    cli.limits.limits_response_body_size,
                    cli.limits.limits_response_body_timeout,
                )
            } else {
                Action::Respond
            })
            &&& state.retry_attempts == cli.retry.retry_attempts
            &&& state.retry_interval == cli.retry.retry_interval
            &&& state.retry_interval_no_healthy_nodes == retry_interval_no_healthy_nodes
        }),
{
}

/// What is to be done after an event, in terms of what happened before and of the settings alone.
pub proof fn every_action_follows(course: Course, state: HandlerState, body_size: Option<u64>)
    requires
        course.valid(),
        course.begins(state, body_size),
        state.retry_attempts >= 1,
        course.events.len() > 0,
    ensures
        ({
            let buffered = body_size is Some && body_size->0 < state.request_body_size_limit && (
            state.retry_attempts > 1 || state.request_body_buffer);
            let length = course.events.len() as int;
            let action = course.actions.last();
            match course.events.last() {
                Event::RequestBuffered => buffered && action == Action::Execute,
                Event::RequestBufferFailed => {
                    buffered && action == Action::Fail(ErrorCause::RequestBodyBufferTimeout)
                },
                Event::Executed(size) => if state.response_body_buffer && size is Some && size->0
                    < state.response_body_size_limit {
                    action == Action::BufferResponse(
                        state.response_body_size_limit,
                        state.response_body_timeout,
                    )
                } else {
                    action == Action::Respond
                },
                Event::ExecuteFailed(RouterError::NoHealthyNodes) => if buffered {
                    action == Action::Sleep(state.retry_interval_no_healthy_nodes)
                } else {
                    action == Action::Fail(ErrorCause::NoHealthyBackends)
                },
                Event::ExecuteFailed(RouterError::Inner(e)) => if buffered {
                    &&& backend_failures(course.events) > 0
                    &&& action matches Action::Sleep(pause)
                    &&& pause@ == state.retry_interval@ * vstd::arithmetic::power2::pow2(
                        (backend_failures(course.events) - 1) as nat,
                    )
                } else {
                    action == Action::Fail(ErrorCause::BackendRequestError(e))
                },
                Event::Slept => {
                    &&& buffered
                    &&& length >= 2
                    &&& course.events[length - 2] matches Event::ExecuteFailed(error)
                    &&& if failures(course.events) < state.retry_attempts {
                        action == Action::Execute
                    } else {
                        action == Action::Fail(
                            match error {
                                RouterError::NoHealthyNodes => ErrorCause::NoHealthyBackends,
                                RouterError::Inner(e) => ErrorCause::BackendRequestError(e),
                            },
                        )
                    }
                },
                Event::ResponseBuffered => action == Action::Respond,
                Event::ResponseBufferFailed(BodyError::TimedOut) => {
                    action == Action::Fail(ErrorCause::BackendTimeout)
                },
                Event::ResponseBufferFailed(BodyError::Failed(e)) => {
                    action == Action::Fail(ErrorCause::BackendBodyError(e))
                },
            }
        }),
{
    last_move(course);
    earlier_is_valid(course);
    let earlier = course.before();
    assert(earlier.stage() == course.stages[course.events.len() - 1]);
    assert(failures(course.events) == failures(earlier.events) + (
    if course.events.last() is ExecuteFailed {
        1nat
    } else {
        0nat
    }));
    if state.buffers_request(body_size) {
        accounts_hold(earlier, state, body_size);
        accounts_hold(course, state, body_size);
        if course.events.last() is Slept {
            assert(earlier.events.last() == course.events[course.events.len() - 2]);
        }
    } else {
        forwards_once_holds(earlier, state, body_size);
    }
}

/// A request whose body is known to be smaller than the limit, even if it is empty, is buffered
/// when there is more than one attempt. Each of its attempts that fails is followed by a sleep,
/// and each such sleep but the one after the last attempt by another attempt.
pub proof fn small_requests_are_retried(course: Course, state: HandlerState, body_size: u64)
    requires
        course.valid(),
        course.begins(state, Some(body_size)),
        state.retry_attempts > 1,
        body_size < state.request_body_size_limit,
    ensures
        course.actions[0] == Action::BufferRequest(
            state.request_body_size_limit,
            state.request_body_timeout,
        ),
        course.events.len() > 0 && course.events.last() is ExecuteFailed
            ==> course.actions.last() is Sleep,
        course.events.len() > 0 && course.events.last() is Slept && failures(course.events)
            < state.retry_attempts ==> course.actions.last() is Execute && executions(
            course.actions,
        ) == failures(course.events) + 1,
        course.actions.last() matches Action::Fail(cause) ==> (cause is BackendRequestError
            || cause is NoHealthyBackends ==> failures(course.events) == state.retry_attempts),
{
    accounts_hold(course, state, Some(body_size));
    if course.events.len() > 0 {
        every_action_follows(course, state, Some(body_size));
        last_move(course);
    }
}

/// Which events can come next is told by what was to be done: its success or its failure, and
/// nothing else. After the end nothing can come. The end of a sleep after a failure of a backend
/// can come as long as twice the sleep is a span of time.
pub proof fn awaited_events_can_occur(
    course: Course,
    state: HandlerState,
    body_size: Option<u64>,
    event: Event,
)
    requires
        course.valid(),
        course.begins(state, body_size),
        state.retry_attempts >= 1,
    ensures
        crate::routing::can_occur(course.stage().phase, event) == (match course.actions.last() {
            Action::BufferRequest(_, _) => event is RequestBuffered || event is RequestBufferFailed,
            Action::Execute => event is Executed || event is ExecuteFailed,
            Action::Sleep(pause) => {
                &&& event is Slept
                &&& is_backend_failure(course.events.last()) ==> 2 * pause@
                    <= u64::MAX * 1_000_000_000 + 999_999_999
            },
            Action::BufferResponse(_, _) => {
                event is ResponseBuffered || event is ResponseBufferFailed
            },
            Action::Respond => false,
            Action::Fail(_) => false,
        }),
{
    if state.buffers_request(body_size) {
        accounts_hold(course, state, body_size);
    } else {
        forwards_once_holds(course, state, body_size);
    }
    if course.events.len() > 0 {
        last_move(course);
        earlier_is_valid(course);
        let earlier = course.before();
        assert(earlier.stage() == course.stages[course.events.len() - 1]);
        if state.buffers_request(body_size) {
            accounts_hold(earlier, state, body_size);
        } else {
            forwards_once_holds(earlier, state, body_size);
        }
    }
}

/// The settings stay the same throughout. The response to a request that is buffered comes with
/// the number of attempts that failed, and the response to any other request without a number.
pub proof fn retries_are_reported(course: Course, state: HandlerState, body_size: Option<u64>)
    requires
        course.valid(),
        course.begins(state, body_size),
        state.retry_attempts >= 1,
    ensures
        course.stage().state == state,
        course.actions.last() is Respond ==> ({
            let buffered = body_size is Some && body_size->0 < state.request_body_size_limit && (
            state.retry_attempts > 1 || state.request_body_buffer);
            match course.stage().retries {
                Some(Retries(n)) => buffered && n == failures(course.events),
                None => !buffered && failures(course.events) == 0,
            }
        }),
{
    if course.actions.last() is Respond {
        retries_count_failures(course, state, body_size);
    }
    if state.buffers_request(body_size) {
        accounts_hold(course, state, body_size);
    } else {
        forwards_once_holds(course, state, body_size);
    }
}

/// An event notes in the request context that a body was buffered, if that is what happened, and
/// changes nothing else in it.
pub proof fn contexts_note_what_was_buffered(context: RequestContext, event: Event)
    ensures
        ({
            let after = crate::routing::noted(context, event);
            &&& after.backend == context.backend
            &&& after.request_body_buffered == (context.request_body_buffered
                || event is RequestBuffered)
            &&& after.response_body_buffered == (context.response_body_buffered
                || event is ResponseBuffered)
        }),
{
}

} // verus!
