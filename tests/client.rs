use pomodoro::client::parse_argument;
use pomodoro::protocol::Action;

#[test]
fn arguments() {
    assert_eq!(parse_argument(None), Some(Action::GetState));
    assert_eq!(parse_argument(Some(&"work".to_string())), Some(Action::Work));
    assert_eq!(parse_argument(Some(&"break".to_string())), Some(Action::Break));
    assert_eq!(parse_argument(Some(&"stop".to_string())), Some(Action::Stop));
    assert_eq!(parse_argument(Some(&"Work".to_string())), None);
    assert_eq!(parse_argument(Some(&"".to_string())), None);
    assert_eq!(parse_argument(Some(&"daemon".to_string())), None);
}
