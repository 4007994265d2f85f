use feel_it_still::codec::UintCodec;
use feel_it_still::dispatch::collect_outcomes;
use feel_it_still::dispatch::ExchangeError;
use feel_it_still::server::count_up;
use feel_it_still::server::run_job;
use feel_it_still::server::ServerAction;
use feel_it_still::server::ServerEvent;
use feel_it_still::server::ServerState;
use feel_it_still::server::server_step;
use feel_it_still::timing::ticks_for;

#[test]
fn count_up_counts_all_the_way() {
    assert_eq!(count_up(0), 0);
    assert_eq!(count_up(1), 1);
    assert_eq!(count_up(1000), 1000);
}

#[test]
fn request_starts_the_job() {
    let (s, a) = server_step(ServerState::AwaitingRequest, ServerEvent::Request(1000));
    assert_eq!(s, ServerState::Working);
    assert_eq!(a, ServerAction::StartJob(1000));
}

#[test]
fn finished_job_is_answered_with_its_elapsed_time() {
    let (s, a) = server_step(ServerState::Working, ServerEvent::JobDone(37));
    assert_eq!(s, ServerState::Closed);
    assert_eq!(a, ServerAction::Respond(37));
}

#[test]
fn timeout_closes_without_a_response() {
    let (s, a) = server_step(ServerState::Working, ServerEvent::TimedOut);
    assert_eq!(s, ServerState::Closed);
    assert_eq!(a, ServerAction::Close);
    let (s, a) = server_step(ServerState::AwaitingRequest, ServerEvent::TimedOut);
    assert_eq!(s, ServerState::Closed);
    assert_eq!(a, ServerAction::Close);
}

#[test]
fn out_of_order_events_close_the_connection() {
    let (s, a) = server_step(ServerState::AwaitingRequest, ServerEvent::JobDone(3));
    assert_eq!(s, ServerState::Closed);
    assert_eq!(a, ServerAction::Close);
    let (s, a) = server_step(ServerState::Working, ServerEvent::Request(4));
    assert_eq!(s, ServerState::Closed);
    assert_eq!(a, ServerAction::Close);
    let (s, a) = server_step(ServerState::Closed, ServerEvent::Request(5));
    assert_eq!(s, ServerState::Closed);
    assert_eq!(a, ServerAction::Idle);
}

#[test]
fn ticks_cover_the_timeout_by_less_than_one_tick() {
    assert_eq!(ticks_for(0, 10), 0);
    assert_eq!(ticks_for(1, 10), 1);
    assert_eq!(ticks_for(10, 10), 1);
    assert_eq!(ticks_for(11, 10), 2);
    assert_eq!(ticks_for(15, 10), 2);
    assert_eq!(ticks_for(5000, 10), 500);
}

// One whole exchange, with the wire frames for real but the sockets and the
// worker pool simulated: the server answers the elapsed milliseconds of the
// counting job and the client records exactly that value.
#[test]
fn simulated_exchange_records_the_servers_answer() {
    // Client side: encode the request.
    let mut wire: Vec<u8> = Vec::new();
    let mut client_codec = UintCodec::new();
    client_codec.encode(1000, &mut wire);

    // Server side: decode the one request, run the job, answer.
    let mut server_codec = UintCodec::new();
    let req = server_codec.decode(&mut wire).unwrap().unwrap();
    assert_eq!(req, 1000);
    let (state, action) = server_step(ServerState::AwaitingRequest, ServerEvent::Request(req));
    let job = match action {
        ServerAction::StartJob(v) => v,
        other => panic!("expected a job start, got {:?}", other),
    };
    let ms = run_job(job);
    let (state, action) = server_step(state, ServerEvent::JobDone(ms));
    assert_eq!(state, ServerState::Closed);
    assert_eq!(action, ServerAction::Respond(ms));
    let mut reply: Vec<u8> = Vec::new();
    server_codec.encode(ms, &mut reply);

    // Client side: decode the one response; its value is the recorded outcome.
    let got = client_codec.decode(&mut reply).unwrap().unwrap();
    assert_eq!(got, ms);
    let outcomes = collect_outcomes(&vec![Ok(got)]);
    assert_eq!(outcomes, vec![ms]);
}

// The same exchange when the deadline fires first: the server closes without
// answering and the client records the sentinel.
#[test]
fn simulated_timeout_records_the_sentinel() {
    let (state, action) = server_step(ServerState::AwaitingRequest, ServerEvent::Request(100_000_000));
    assert_eq!(state, ServerState::Working);
    assert_eq!(action, ServerAction::StartJob(100_000_000));
    let (state, action) = server_step(state, ServerEvent::TimedOut);
    assert_eq!(state, ServerState::Closed);
    assert_eq!(action, ServerAction::Close);

    let outcomes = collect_outcomes(&vec![Err(ExchangeError::Timeout)]);
    assert_eq!(outcomes, vec![0]);
}
