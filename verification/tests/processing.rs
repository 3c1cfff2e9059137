use xplm::api::processing::{
    close_flight_loop, create_flight_loop, destroy_flight_loop, flight_loop_created,
    get_cycle_number, get_elapsed_time, handle_flight_loop, schedule_flight_loop,
    FlightLoopHandler, FlightLoopId, FlightLoopInterval, FlightLoopLink, FlightLoopPhaseType,
    ProcessingCall, ProcessingError, FLIGHT_LOOP_OFF,
};
use xplm::api::registration::Registry;
use xplm::ffi::Single;

struct Every(f32, Vec<(f32, f32, i32)>);

impl FlightLoopHandler for Every {
    fn handle_flight_loop(
        &mut self,
        elapsed_since_last_call: Single,
        elapsed_since_last_flight_loop: Single,
        counter: i32,
    ) -> Single {
        self.1.push((
            f32::from_bits(elapsed_since_last_call.0),
            f32::from_bits(elapsed_since_last_flight_loop.0),
            counter,
        ));
        Single(self.0.to_bits())
    }
}

fn bits(value: f32) -> Single {
    Single(value.to_bits())
}

#[test]
fn flight_loop_phases_have_the_hosts_codes() {
    assert_eq!(FlightLoopPhaseType::BeforeFlightModel.native(), 0);
    assert_eq!(FlightLoopPhaseType::AfterFlightModel.native(), 1);
}

#[test]
fn flight_loop_is_created_with_its_phase_and_a_token() {
    let mut registry = Registry::new();
    let (token, call) =
        create_flight_loop(&mut registry, FlightLoopPhaseType::AfterFlightModel, Every(1.0, vec![]));
    assert_eq!(call, ProcessingCall::CreateFlightLoop { phase: 1, token: 1 });
    let mut flight_loop = flight_loop_created(&mut registry, token, 0x77).unwrap();
    assert_eq!(flight_loop.id_of().native(), 0x77);
    assert_eq!(flight_loop.token_of(), token);
    let owed = close_flight_loop(&mut registry, &mut flight_loop).unwrap();
    assert_eq!(owed.call, ProcessingCall::DestroyFlightLoop { flight_loop: 0x77 });
    assert!(owed.item.is_some());
    assert!(close_flight_loop(&mut registry, &mut flight_loop).is_none());
}

#[test]
fn flight_loop_that_the_host_did_not_make_leaves_no_registration() {
    let mut registry = Registry::new();
    let (token, _) = create_flight_loop(
        &mut registry,
        FlightLoopPhaseType::BeforeFlightModel,
        Every(1.0, vec![]),
    );
    assert!(matches!(
        flight_loop_created(&mut registry, token, 0),
        Err(ProcessingError::InvalidFlightLoopId)
    ));
    assert!(!registry.is_registered(token.native()));
}

#[test]
fn flight_loop_answer_is_the_handlers() {
    let mut registry = Registry::new();
    let (token, _) = create_flight_loop(
        &mut registry,
        FlightLoopPhaseType::BeforeFlightModel,
        Every(-2.0, vec![]),
    );
    let next = handle_flight_loop(&mut registry, bits(0.5), bits(0.25), 12, token.native());
    assert_eq!(f32::from_bits(next.0), -2.0);
    let mut lease = registry.checkout(token.native()).unwrap();
    assert_eq!(lease.item_mut().0 .1, vec![(0.5, 0.25, 12)]);
    registry.checkin(lease);
}

#[test]
fn flight_loop_under_a_token_that_names_nothing_is_switched_off() {
    let mut registry: Registry<FlightLoopLink<Every>> = Registry::new();
    assert_eq!(handle_flight_loop(&mut registry, bits(1.0), bits(1.0), 1, 0), Single(0));
    assert_eq!(handle_flight_loop(&mut registry, bits(1.0), bits(1.0), 1, 3), Single(0));
    assert_eq!(f32::from_bits(FLIGHT_LOOP_OFF), 0.0);
    let (token, _) = create_flight_loop(
        &mut registry,
        FlightLoopPhaseType::BeforeFlightModel,
        Every(1.0, vec![]),
    );
    let mut flight_loop = flight_loop_created(&mut registry, token, 5).unwrap();
    assert!(close_flight_loop(&mut registry, &mut flight_loop).is_some());
    assert_eq!(
        handle_flight_loop(&mut registry, bits(1.0), bits(1.0), 1, token.native()),
        Single(0)
    );
}

#[test]
fn flight_loop_is_scheduled_from_now_or_from_the_start() {
    let id = FlightLoopId::try_from(0x77usize).unwrap();
    assert_eq!(
        schedule_flight_loop(&id, FlightLoopInterval::RelativeToCurrent(bits(2.5))),
        ProcessingCall::ScheduleFlightLoop {
            flight_loop: 0x77,
            interval: bits(2.5),
            relative_to_now: 1
        }
    );
    assert_eq!(
        schedule_flight_loop(&id, FlightLoopInterval::RelativeToStart(bits(-1.0))),
        ProcessingCall::ScheduleFlightLoop {
            flight_loop: 0x77,
            interval: bits(-1.0),
            relative_to_now: 0
        }
    );
    assert_eq!(destroy_flight_loop(&id), ProcessingCall::DestroyFlightLoop { flight_loop: 0x77 });
    assert_eq!(get_elapsed_time(), ProcessingCall::GetElapsedTime);
    assert_eq!(get_cycle_number(), ProcessingCall::GetCycleNumber);
}

#[test]
fn flight_loop_call_in_two_halves_answers_for_the_handler() {
    let mut registry = Registry::new();
    let (token, _) = create_flight_loop(
        &mut registry,
        FlightLoopPhaseType::AfterFlightModel,
        Every(3.0, vec![]),
    );
    let mut call = registry.begin_call(token.native());
    let next = call.handle_flight_loop(bits(1.0), bits(2.0), 9);
    assert_eq!(f32::from_bits(next.0), 3.0);
    registry.end_call(call);
    let mut call = registry.begin_call(0);
    assert_eq!(call.handle_flight_loop(bits(1.0), bits(2.0), 9), Single(0));
    registry.end_call(call);
    let mut lease = registry.checkout(token.native()).unwrap();
    assert_eq!(lease.item_mut().0 .1, vec![(1.0, 2.0, 9)]);
    registry.checkin(lease);
}
