use trading_platform::infra::event_bus::zmq::{ReconnectStep, ZMQEventBus, MAX_RECONNECT_ATTEMPTS};
use trading_platform::infra::execution::manager::ExecutionManager;
use trading_platform::domain::events::OrderStatus;
use trading_platform::Error;

fn shown(e: Error) -> String {
    e.to_string()
}

#[test]
fn test_zmq_event_bus_creation() {
    let valid_address = "tcp://127.0.0.1:5555".to_string();
    assert!(ZMQEventBus::new(valid_address).is_ok());

    let empty_address = "".to_string();
    assert!(ZMQEventBus::new(empty_address).is_err());

    let invalid_address = "invalid://address".to_string();
    assert!(ZMQEventBus::new(invalid_address).is_err());
}

#[test]
fn test_topic_validation() {
    assert!(ZMQEventBus::validate_topic("valid.topic").is_ok());
    assert!(ZMQEventBus::validate_topic("").is_err());
    assert!(ZMQEventBus::validate_topic("invalid topic").is_err());
}

#[test]
fn event_bus_state_and_errors() {
    let mut bus = ZMQEventBus::new("ipc:///tmp/bus".to_string()).unwrap();
    assert!(bus.is_running());
    assert_eq!(bus.get_address(), "ipc:///tmp/bus");
    assert!(bus.shutdown().is_ok());
    assert!(!bus.is_running());
    assert_eq!(shown(ZMQEventBus::new("".to_string()).unwrap_err()), "Validation error: Address cannot be empty");
    assert_eq!(shown(ZMQEventBus::new("udp://x".to_string()).unwrap_err()), "Validation error: Invalid address format");
    assert_eq!(shown(ZMQEventBus::validate_topic("a b").unwrap_err()), "Validation error: Topic cannot contain spaces");
    assert_eq!(shown(ZMQEventBus::check_topic_list(&vec![]).unwrap_err()), "Validation error: Topics list cannot be empty");
    assert!(ZMQEventBus::check_topic_list(&vec!["a".to_string()]).is_ok());
}

#[test]
fn frames_round_trip() {
    let m = ZMQEventBus::frame_message("trades", "{\"x\": 1}");
    assert_eq!(m, "trades {\"x\": 1}");
    assert_eq!(ZMQEventBus::message_payload(&m, "trades"), Some("{\"x\": 1}".to_string()));
    assert_eq!(ZMQEventBus::message_payload(&m, "orders"), None);
    assert_eq!(ZMQEventBus::message_payload("trades", "trades"), None);
    assert_eq!(ZMQEventBus::message_payload("trades ", "trades"), Some("".to_string()));
}

#[test]
fn reconnect_steps() {
    assert_eq!(ZMQEventBus::reconnect_step(1, true), ReconnectStep::Connected);
    assert_eq!(ZMQEventBus::reconnect_step(1, false), ReconnectStep::Retry);
    assert_eq!(ZMQEventBus::reconnect_step(MAX_RECONNECT_ATTEMPTS, false), ReconnectStep::GiveUp);
}

#[test]
fn execution_manager_decisions() {
    let mut m: ExecutionManager<u32> = ExecutionManager::new();
    assert_eq!(shown(m.check_running().unwrap_err()), "Operation error: Execution manager not running");
    assert_eq!(shown(m.check_start(false).unwrap_err()), "Operation error: Broker not available");
    assert!(m.check_start(true).is_ok());
    m.mark_started();
    assert!(m.check_running().is_ok());
    assert_eq!(shown(m.check_start(true).unwrap_err()), "Operation error: Execution manager already running");
    m.track_order("a".to_string(), 1);
    m.track_order("b".to_string(), 2);
    m.track_order("a".to_string(), 3);
    assert_eq!(m.get_active_orders_count(), 2);
    m.update_order_status("a", OrderStatus::New);
    assert!(m.is_active("a"));
    m.update_order_status("a", OrderStatus::Filled);
    assert!(!m.is_active("a"));
    m.on_order_status("");
    assert_eq!(m.get_active_orders_count(), 1);
    m.on_order_status("b");
    assert_eq!(m.get_active_orders_count(), 0);
    m.track_order("c".to_string(), 4);
    m.forget_order("c");
    assert_eq!(m.get_active_orders_count(), 0);
    m.mark_stopped();
    assert!(!m.is_running());
    assert!(ExecutionManager::<u32>::check_broker(true).is_ok());
}
