use std::sync::Arc;

use oxidebot::bot::{BotEntry, BotRegistry};
use oxidebot::event::message::MessageEvent;
use oxidebot::event::{Event, EventTrait};
use oxidebot::filter::{FilterEntry, FilterPool, FilterStep};
use oxidebot::handler::{EventHandlerPool, Handler};
use oxidebot::manager::{BusEvent, LoopAction, LoopStage, OxideBotManager};
use oxidebot::matcher::Matcher;
use oxidebot::source::message::{Message, MessageSegment};

fn entry(priority: u8, name: &'static str) -> FilterEntry<&'static str> {
    FilterEntry { priority, filter: name }
}

fn chain_names(pool: &FilterPool<&'static str>) -> Vec<&'static str> {
    (0..pool.len()).map(|i| *pool.get(i)).collect()
}

#[test]
fn lower_priority_runs_first_whatever_the_order_of_registration() {
    let pool = FilterPool::build(vec![entry(5, "e"), entry(1, "a"), entry(3, "c"), entry(1, "b")]);
    assert_eq!(chain_names(&pool), vec!["a", "b", "c", "e"]);
    let mut other = FilterPool::new();
    other.add_filter(entry(3, "c"));
    other.add_filter(entry(1, "a"));
    other.add_filter(entry(5, "e"));
    other.add_filter(entry(1, "b"));
    assert_eq!(chain_names(&other), vec!["a", "b", "c", "e"]);
    assert_eq!(other.priority(3), 5);
}

#[test]
fn chain_steps_in_order_and_stops_at_first_rejection() {
    let pool = FilterPool::build(vec![entry(1, "a"), entry(2, "b"), entry(3, "c")]);
    assert_eq!(pool.start(), FilterStep::Evaluate(0));
    assert_eq!(pool.filter(0, true), FilterStep::Evaluate(1));
    assert_eq!(pool.filter(1, false), FilterStep::Reject);
    assert_eq!(pool.filter(2, true), FilterStep::Admit);
    let empty: FilterPool<&'static str> = FilterPool::new();
    assert_eq!(empty.start(), FilterStep::Admit);
}

struct Raw {
    text: String,
}

impl EventTrait for Raw {
    fn get_events(&self) -> Vec<Event> {
        vec![Event::MessageEvent(MessageEvent {
            id: "e1".to_string(),
            platform: "qq".to_string(),
            time: None,
            sender: Default::default(),
            group: None,
            message: Message { id: "m1".to_string(), segments: vec![MessageSegment::text(&self.text)] },
        })]
    }

    fn server(&self) -> String {
        "qq".to_string()
    }
}

struct Connector {
    server: &'static str,
}

/// A filter of the end-to-end scenario.
#[derive(Clone, Copy, Debug, PartialEq)]
enum Rule {
    KnownServer,
    NonEmptyText,
}

fn verdict(rule: Rule, m: &Matcher<Raw, Connector>) -> bool {
    match rule {
        Rule::KnownServer => m.bot.server == "qq",
        Rule::NonEmptyText => m.try_get_message().map(|msg| !msg.get_raw_text().is_empty()).unwrap_or(false),
    }
}

/// Runs one received matcher through the loop; returns how many handler
/// invocations it led to and the filters asked, in order.
fn run_one(
    manager: &mut OxideBotManager<Connector, Rule, &'static str>,
    m: &Matcher<Raw, Connector>,
) -> (usize, Vec<Rule>) {
    let mut asked = Vec::new();
    let mut invocations = 0;
    let mut action = manager.on_event(BusEvent::Received);
    loop {
        match action {
            LoopAction::Evaluate(i) => {
                let rule = *manager.filter_at(i);
                asked.push(rule);
                action = manager.on_event(BusEvent::Verdict(verdict(rule, m)));
            }
            LoopAction::Dispatch => {
                invocations += manager.dispatch_targets().len();
                break;
            }
            LoopAction::Receive | LoopAction::Stop => break,
        }
    }
    (invocations, asked)
}

fn scenario_manager() -> OxideBotManager<Connector, Rule, &'static str> {
    let (manager, active) = OxideBotManager::build(
        vec![BotEntry { server: "qq".to_string(), id: Some("b1".to_string()), bot: Arc::new(Connector { server: "qq" }) }],
        vec![
            Handler { event_handler: Some("log"), active_handler: None::<&'static str> },
            Handler { event_handler: Some("echo"), active_handler: Some("poller") },
        ],
        vec![
            FilterEntry { priority: 5, filter: Rule::NonEmptyText },
            FilterEntry { priority: 1, filter: Rule::KnownServer },
        ],
    );
    assert_eq!(active, vec!["poller"]);
    manager
}

fn published(text: &str) -> Matcher<Raw, Connector> {
    let ms = Matcher::new(Arc::new(Raw { text: text.to_string() }), Arc::new(Connector { server: "qq" }));
    assert_eq!(ms.len(), 1);
    ms.into_iter().next().unwrap()
}

#[test]
fn empty_text_is_rejected_and_no_handler_fires() {
    let mut manager = scenario_manager();
    let (invocations, asked) = run_one(&mut manager, &published(""));
    assert_eq!(invocations, 0);
    assert_eq!(asked, vec![Rule::KnownServer, Rule::NonEmptyText]);
}

#[test]
fn non_empty_text_reaches_each_handler_once() {
    let mut manager = scenario_manager();
    let (invocations, asked) = run_one(&mut manager, &published("hello"));
    assert_eq!(invocations, 2);
    assert_eq!(asked, vec![Rule::KnownServer, Rule::NonEmptyText]);
    let targets = manager.dispatch_targets();
    assert_eq!(*targets[0], "log");
    assert_eq!(*targets[1], "echo");
}

#[test]
fn rejection_by_first_filter_skips_the_rest() {
    let mut manager: OxideBotManager<Connector, Rule, &'static str> = OxideBotManager::new()
        .filter(FilterEntry { priority: 1, filter: Rule::KnownServer })
        .filter(FilterEntry { priority: 2, filter: Rule::NonEmptyText });
    let (manager2, started) = manager.handler(Handler { event_handler: Some("h"), active_handler: None::<u8> });
    assert!(started.is_none());
    manager = manager2;
    let m = Matcher {
        event_object: Arc::new(Raw { text: "x".to_string() }),
        event: published("x").event,
        bot: Arc::new(Connector { server: "other" }),
    };
    let (invocations, asked) = run_one(&mut manager, &m);
    assert_eq!(invocations, 0);
    assert_eq!(asked, vec![Rule::KnownServer]);
}

#[test]
fn loop_survives_lag_and_stops_when_closed() {
    let mut manager: OxideBotManager<Connector, Rule, &'static str> = OxideBotManager::new();
    assert_eq!(manager.on_event(BusEvent::Lagged), LoopAction::Receive);
    assert_eq!(manager.on_event(BusEvent::Received), LoopAction::Dispatch);
    assert_eq!(manager.on_event(BusEvent::Closed), LoopAction::Stop);
    assert_eq!(manager.on_event(BusEvent::Received), LoopAction::Stop);
    let _ = LoopStage::Closed;
}

#[test]
fn get_bot_finds_first_by_server_and_id() {
    let mut reg = BotRegistry::new();
    reg.add_bots(vec![
        BotEntry { server: "qq".to_string(), id: None, bot: Arc::new(1u8) },
        BotEntry { server: "qq".to_string(), id: Some("b1".to_string()), bot: Arc::new(2u8) },
        BotEntry { server: "tg".to_string(), id: Some("b1".to_string()), bot: Arc::new(3u8) },
        BotEntry { server: "qq".to_string(), id: Some("b1".to_string()), bot: Arc::new(4u8) },
    ]);
    assert_eq!(reg.len(), 4);
    assert_eq!(*reg.get_bot("qq", "b1").unwrap(), 2);
    assert_eq!(*reg.get_bot("tg", "b1").unwrap(), 3);
    assert!(reg.get_bot("qq", "b2").is_none());
    let manager = scenario_manager().bot(BotEntry {
        server: "tg".to_string(),
        id: Some("b9".to_string()),
        bot: Arc::new(Connector { server: "tg" }),
    });
    assert_eq!(manager.get_bot("tg", "b9").unwrap().server, "tg");
    assert!(manager.get_bot("tg", "b1").is_none());
}

#[test]
fn handler_pool_keeps_reactive_roles_and_returns_active_ones() {
    let mut pool: EventHandlerPool<&'static str> = EventHandlerPool::new();
    assert_eq!(pool.add_handler(Handler { event_handler: Some("a"), active_handler: Some(7u8) }), Some(7));
    assert_eq!(pool.add_handler(Handler { event_handler: None, active_handler: Some(8u8) }), Some(8));
    assert_eq!(pool.add_handler(Handler::<&'static str, u8> { event_handler: Some("b"), active_handler: None }), None);
    assert_eq!(pool.len(), 2);
    let fan_out = pool.handle();
    assert_eq!(fan_out.len(), 2);
    assert_eq!(*fan_out[0], "a");
    assert_eq!(*fan_out[1], "b");
    let (built, active) = EventHandlerPool::build(vec![
        Handler { event_handler: None, active_handler: Some(1u8) },
        Handler { event_handler: Some("x"), active_handler: Some(2u8) },
    ]);
    assert_eq!(built.len(), 1);
    assert_eq!(active, vec![1, 2]);
}
