use trading_platform::ui::console::ConsoleUI;
use trading_platform::ui::logger::Logger;
use trading_platform::ui::metrics::MetricsSubscriber;
use trading_platform::Error;

fn said(e: Error) -> String {
    e.to_string()
}

#[test]
fn test_console_ui_creation() {
    let topics = vec!["topic1".to_string()];
    assert!(ConsoleUI::new(topics).is_ok());

    let empty_topics: Vec<String> = vec![];
    assert!(ConsoleUI::new(empty_topics).is_err());
}

#[test]
fn test_ui_lifecycle() {
    let topics = vec!["test".to_string()];
    let mut ui = ConsoleUI::new(topics).unwrap();
    assert!(ui.start().is_err());
    ui.subscribe().unwrap();
    assert!(ui.start().is_ok());
    assert!(ui.subscribe().is_err());
    assert!(ui.stop().is_ok());
}

#[test]
fn test_logger_creation() {
    let topics = vec!["topic1".to_string(), "topic2".to_string()];
    assert!(Logger::new(topics).is_ok());

    let empty_topics: Vec<String> = vec![];
    assert!(Logger::new(empty_topics).is_err());

    let invalid_topics = vec!["topic1".to_string(), "".to_string()];
    assert!(Logger::new(invalid_topics).is_err());
}

#[test]
fn test_logger_lifecycle() {
    let topics = vec!["test".to_string()];
    let mut logger = Logger::new(topics).unwrap();
    assert!(logger.start().is_err());
    logger.subscribe().unwrap();
    assert!(logger.start().is_ok());
    assert!(logger.subscribe().is_err());
    assert!(logger.stop().is_ok());
}

#[test]
fn test_metrics_subscriber_creation() {
    let topics = vec!["topic1".to_string(), "topic2".to_string()];
    assert!(MetricsSubscriber::new(topics).is_ok());

    let empty_topics: Vec<String> = vec![];
    assert!(MetricsSubscriber::new(empty_topics).is_err());

    let invalid_topics = vec!["topic1".to_string(), "".to_string()];
    assert!(MetricsSubscriber::new(invalid_topics).is_err());
}

#[test]
fn test_metrics_lifecycle() {
    let topics = vec!["test".to_string()];
    let mut metrics = MetricsSubscriber::new(topics).unwrap();
    assert!(metrics.start().is_err());
    metrics.subscribe().unwrap();
    assert!(metrics.start().is_ok());
    assert!(metrics.subscribe().is_err());
    assert!(metrics.stop().is_ok());
}

#[test]
fn lifecycle_messages() {
    let mut ui = ConsoleUI::new(vec!["t".to_string()]).unwrap();
    assert_eq!(said(ui.start().unwrap_err()), "Operation error: Callback not set");
    ui.subscribe().unwrap();
    ui.start().unwrap();
    assert!(ui.accepts_events());
    assert_eq!(said(ui.start().unwrap_err()), "Operation error: Console UI already running");
    assert_eq!(said(ui.subscribe().unwrap_err()), "Operation error: Cannot subscribe while running");
    ui.stop().unwrap();
    assert!(!ui.accepts_events());
    assert!(ui.start().is_ok());
    assert_eq!(ui.get_source_topics(), vec!["t".to_string()]);

    let mut logger = Logger::new(vec!["t".to_string()]).unwrap();
    logger.subscribe().unwrap();
    logger.start().unwrap();
    assert_eq!(said(logger.start().unwrap_err()), "Operation error: Logger already running");
    let mut metrics = MetricsSubscriber::new(vec!["t".to_string()]).unwrap();
    metrics.subscribe().unwrap();
    metrics.start().unwrap();
    assert_eq!(said(metrics.start().unwrap_err()), "Operation error: Metrics subscriber already running");
    assert_eq!(said(Logger::new(vec!["".to_string()]).unwrap_err()), "Validation error: Topic cannot be empty");
    assert_eq!(said(MetricsSubscriber::new(vec![]).unwrap_err()), "Validation error: Topics list cannot be empty");
}

#[test]
fn console_commands() {
    let e = ConsoleUI::parse_command("  q ").unwrap();
    assert_eq!((e.action.as_str(), e.value), ("quit", None));
    let e = ConsoleUI::parse_command("quit").unwrap();
    assert_eq!(e.action, "quit");
    let e = ConsoleUI::parse_command("buy 5").unwrap();
    assert_eq!((e.action.as_str(), e.value.as_deref()), ("buy", Some("5")));
    let e = ConsoleUI::parse_command("  sell   0.25\n").unwrap();
    assert_eq!((e.action.as_str(), e.value.as_deref()), ("sell", Some("0.25")));
    assert!(ConsoleUI::parse_command("buy 5 6").is_none());
    assert!(ConsoleUI::parse_command("buy").is_none());
    assert!(ConsoleUI::parse_command("buy\t5").is_none());
    assert!(ConsoleUI::parse_command("hold 5").is_none());
    assert!(ConsoleUI::parse_command("").is_none());
}
