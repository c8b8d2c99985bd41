use obs_gpmdp::client::{Client, ClientAccess, Startup, StartupError, START_FAILURE};
use obs_gpmdp::playback::{PlaybackState, TrackInfo, Update};
use obs_gpmdp::registry::{ClientId, Registry};

fn subscribe(access: &mut ClientAccess<u32>, id: &ClientId, handler: u32) -> Client {
    let subscription = access.client(id, handler, Startup::Started).unwrap();
    assert_eq!(&subscription.dispatch, id);
    subscription.lease
}

fn text(name: &str) -> ClientId {
    ClientId::Text(name.to_string())
}

fn track(title: &str) -> TrackInfo {
    TrackInfo {
        title: title.to_string(),
        artist: "A".to_string(),
        album: "L".to_string(),
        album_art_url: None,
    }
}

#[test]
fn client_id_copies_are_equal() {
    assert_eq!(text("one").to_owned(), text("one"));
    assert_eq!(ClientId::Art.to_owned(), ClientId::Art);
    assert_eq!(text("one").clone(), text("one"));
    assert_ne!(text("one"), text("two"));
    assert_ne!(text("Art"), ClientId::Art);
}

#[test]
fn registry_keeps_one_handler_for_each_identity() {
    let mut registry: Registry<u32> = Registry::new();
    assert!(registry.is_empty());
    assert_eq!(registry.insert(text("one"), 1), None);
    assert_eq!(registry.insert(ClientId::Art, 2), None);
    assert_eq!(registry.insert(text("one"), 3), Some(1));
    assert_eq!(registry.len(), 2);
    assert_eq!(registry.get(&text("one")), Some(&3));
    assert_eq!(registry.get(&ClientId::Art), Some(&2));
    assert_eq!(registry.get(&text("two")), None);
    assert!(registry.contains(&ClientId::Art));
    assert!(!registry.contains(&text("two")));
    assert_eq!(registry.ids(), vec![text("one"), ClientId::Art]);
}

#[test]
fn registry_forgets_what_is_removed() {
    let mut registry: Registry<u32> = Registry::new();
    registry.insert(text("one"), 1);
    registry.insert(text("two"), 2);
    registry.insert(ClientId::Art, 3);
    assert_eq!(registry.remove(&text("two")), Some(2));
    assert_eq!(registry.remove(&text("two")), None);
    assert_eq!(registry.ids(), vec![text("one"), ClientId::Art]);
    assert_eq!(registry.get(&text("one")), Some(&1));
    assert_eq!(registry.get(&ClientId::Art), Some(&3));
    assert_eq!(registry.len(), 2);
    assert!(!registry.is_empty());
}

#[test]
fn launch_that_started_hands_out_lease_and_fresh_state() {
    let launch = Client::launch::<u32>(&text("one"), 4, Startup::Started).ok().unwrap();
    assert_eq!(launch.lease.id(), &text("one"));
    assert_eq!(launch.lease.generation(), 4);
    assert_eq!(launch.state.current_state(), &PlaybackState { track: None, is_playing: false });
    assert_eq!(launch.state.handlers(), 0);
    assert_eq!(launch.state.leases(), 1);
}

#[test]
fn launch_that_failed_reports_with_the_fixed_beginning() {
    assert_eq!(START_FAILURE, "Failed to start core: ");
    let error = Client::launch::<u32>(&text("one"), 4, Startup::Failed("no loop".to_string())).err();
    assert_eq!(error, Some(StartupError { reason: "Failed to start core: no loop".to_string() }));
    let error = Client::launch::<u32>(&ClientId::Art, 1, Startup::Failed(String::new())).err().unwrap();
    assert!(error.reason.starts_with("Failed to start core: "));
    assert_eq!(error.reason, "Failed to start core: ");
}

#[test]
fn first_subscriber_starts_a_worker() {
    let mut access: ClientAccess<u32> = ClientAccess::new();
    assert!(!access.is_live());
    assert_eq!(access.generation(), None);
    assert_eq!(access.leases(), 0);
    assert!(access.state().is_none());
    let lease = subscribe(&mut access, &ClientId::Art, 10);
    assert!(access.is_live());
    assert_eq!(access.generation(), Some(1));
    assert_eq!(lease.generation(), 1);
    assert_eq!(lease.id(), &ClientId::Art);
    assert_eq!(access.leases(), 1);
    assert_eq!(access.state(), Some(&PlaybackState::new()));
    assert_eq!(access.delivery(&ClientId::Art), Some((&10, &PlaybackState::new())));
}

#[test]
fn failed_launch_fails_the_subscription_and_changes_nothing() {
    let mut access: ClientAccess<u32> = ClientAccess::new();
    let outcome = access.client(&ClientId::Art, 10, Startup::Failed("boom".to_string()));
    assert_eq!(outcome.err(), Some(StartupError { reason: "Failed to start core: boom".to_string() }));
    assert!(!access.is_live());
    assert_eq!(access.leases(), 0);
    assert_eq!(access.delivery(&ClientId::Art), None);
    assert!(access.can_subscribe());
    // The next subscriber can still start one.
    assert!(access.client(&ClientId::Art, 10, Startup::Started).is_ok());
    assert_eq!(access.generation(), Some(1));
}

#[test]
fn later_subscriber_joins_the_running_worker() {
    let mut access: ClientAccess<u32> = ClientAccess::new();
    let first = subscribe(&mut access, &text("one"), 1);
    // The report of a launch is not looked at while a worker runs.
    let second = access.client(&text("two"), 2, Startup::Failed("unused".to_string())).unwrap().lease;
    assert_eq!(first.generation(), second.generation());
    assert_eq!(access.leases(), 2);
    assert_eq!(access.generation(), Some(1));
}

#[test]
fn late_subscriber_receives_the_current_state_at_once() {
    let mut access: ClientAccess<u32> = ClientAccess::new();
    let _first = subscribe(&mut access, &text("one"), 1);
    access.publish(Update::Track(track("One")));
    access.publish(Update::PlayState(true));
    access.publish(Update::Track(track("Two")));
    let _late = subscribe(&mut access, &text("late"), 2);
    let expected = PlaybackState { track: Some(track("Two")), is_playing: true };
    assert_eq!(access.delivery(&text("late")), Some((&2, &expected)));
}

#[test]
fn updates_go_to_every_subscriber() {
    let mut access: ClientAccess<u32> = ClientAccess::new();
    let _a = subscribe(&mut access, &text("one"), 1);
    let _b = subscribe(&mut access, &ClientId::Art, 2);
    let targets = access.publish(Update::PlayState(true));
    assert_eq!(targets, vec![text("one"), ClientId::Art]);
    let expected = PlaybackState { track: None, is_playing: true };
    assert_eq!(access.delivery(&text("one")), Some((&1, &expected)));
    assert_eq!(access.delivery(&ClientId::Art), Some((&2, &expected)));
    assert_eq!(access.state(), Some(&expected));
}

#[test]
fn publishing_without_a_worker_reaches_nobody() {
    let mut access: ClientAccess<u32> = ClientAccess::new();
    assert_eq!(access.publish(Update::PlayState(true)), Vec::<ClientId>::new());
    assert!(access.state().is_none());
}

#[test]
fn new_handler_replaces_the_old_one_of_its_identity() {
    let mut access: ClientAccess<u32> = ClientAccess::new();
    let _a = subscribe(&mut access, &text("one"), 1);
    let _b = subscribe(&mut access, &text("one"), 5);
    assert_eq!(access.publish(Update::PlayState(false)), vec![text("one")]);
    assert_eq!(access.delivery(&text("one")).map(|d| *d.0), Some(5));
    assert_eq!(access.leases(), 2);
}

#[test]
fn dropped_lease_stops_delivery() {
    let mut access: ClientAccess<u32> = ClientAccess::new();
    let one = subscribe(&mut access, &text("one"), 1);
    let _two = subscribe(&mut access, &text("two"), 2);
    assert!(!access.release(one));
    assert_eq!(access.publish(Update::PlayState(true)), vec![text("two")]);
    assert_eq!(access.delivery(&text("one")), None);
    assert_eq!(access.publish(Update::Track(track("T"))), vec![text("two")]);
    assert!(access.is_live());
    assert_eq!(access.leases(), 1);
}

#[test]
fn last_lease_releases_the_worker_and_the_next_subscriber_gets_a_fresh_one() {
    let mut access: ClientAccess<u32> = ClientAccess::new();
    let one = subscribe(&mut access, &text("one"), 1);
    let two = subscribe(&mut access, &text("two"), 2);
    access.publish(Update::PlayState(true));
    assert!(!access.release(two));
    assert!(access.release(one));
    assert!(!access.is_live());
    assert_eq!(access.generation(), None);
    assert_eq!(access.publish(Update::PlayState(true)), Vec::<ClientId>::new());

    let again = subscribe(&mut access, &text("one"), 7);
    assert!(access.is_live());
    assert_eq!(again.generation(), 2);
    assert_eq!(access.generation(), Some(2));
    // The fresh worker knows nothing of what the old one had heard.
    assert_eq!(access.delivery(&text("one")), Some((&7, &PlaybackState::new())));
    assert!(access.release(again));
    let third = subscribe(&mut access, &ClientId::Art, 8);
    assert_eq!(third.generation(), 3);
}

#[test]
fn lease_of_a_gone_worker_changes_nothing() {
    let mut access: ClientAccess<u32> = ClientAccess::new();
    let old = subscribe(&mut access, &text("one"), 1);
    let stale = Client::launch::<u32>(&text("one"), old.generation(), Startup::Started).ok().unwrap().lease;
    assert!(access.release(old));
    let _new = subscribe(&mut access, &text("one"), 2);
    assert!(!access.release(stale));
    assert!(access.is_live());
    assert_eq!(access.delivery(&text("one")).map(|d| *d.0), Some(2));
    assert_eq!(access.leases(), 1);
}

type Callback = Box<dyn Fn(&PlaybackState, &u32) -> Result<String, String>>;

fn callback(name: &'static str, fails: bool) -> Callback {
    Box::new(move |state: &PlaybackState, context: &u32| {
        let line = format!("{} {} {}", name, state.is_playing, context);
        if fails {
            Err(line)
        } else {
            Ok(line)
        }
    })
}

#[test]
fn fan_out_calls_every_handler_with_the_new_state() {
    let mut access: ClientAccess<Callback> = ClientAccess::new();
    let _a = access.client(&text("one"), callback("one", false), Startup::Started).unwrap();
    let _b = access.client(&ClientId::Art, callback("art", true), Startup::Started).unwrap();
    let _c = access.client(&text("two"), callback("two", false), Startup::Started).unwrap();
    let results = access.fan_out(Update::PlayState(true), &9);
    // The failure of the second handler keeps the third from nothing.
    assert_eq!(
        results,
        vec![Ok("one true 9".to_string()), Err("art true 9".to_string()), Ok("two true 9".to_string())]
    );
    assert_eq!(access.state(), Some(&PlaybackState { track: None, is_playing: true }));
    let results = access.fan_out(Update::Disconnected, &3);
    assert_eq!(
        results,
        vec![Ok("one false 3".to_string()), Err("art false 3".to_string()), Ok("two false 3".to_string())]
    );
}

#[test]
fn fan_out_without_a_worker_calls_nobody() {
    let mut access: ClientAccess<Callback> = ClientAccess::new();
    assert_eq!(access.fan_out(Update::PlayState(true), &1), Vec::new());
    assert!(!access.is_live());
}

#[test]
fn new_subscriber_is_delivered_the_current_state() {
    let mut access: ClientAccess<Callback> = ClientAccess::new();
    let _a = access.client(&text("one"), callback("one", false), Startup::Started).unwrap();
    access.fan_out(Update::PlayState(true), &0);
    let late = access.client(&text("late"), callback("late", false), Startup::Started).unwrap();
    assert_eq!(access.deliver(&late.dispatch, &5), Some(Ok("late true 5".to_string())));
    assert_eq!(access.deliver(&text("nobody"), &5), None);
    assert!(!access.release(late.lease));
    assert_eq!(access.deliver(&text("late"), &5), None);
}

#[test]
fn registry_calls_all_handlers_in_order() {
    let mut registry: Registry<Box<dyn Fn(&u32, &u32) -> u32>> = Registry::new();
    registry.insert(text("sum"), Box::new(|a: &u32, b: &u32| a + b));
    registry.insert(text("product"), Box::new(|a: &u32, b: &u32| a * b));
    registry.insert(ClientId::Art, Box::new(|a: &u32, _: &u32| *a));
    assert_eq!(registry.call_all(&3, &4), vec![7, 12, 3]);
    registry.remove(&text("product"));
    assert_eq!(registry.call_all(&3, &4), vec![7, 3]);
}
