use weldgen::features::Features;

const NONE: &str = "Features { builtin_http: false, builtin_messaging: false }";
const HTTP: &str = "Features { builtin_http: true, builtin_messaging: false }";
const MESSAGING: &str = "Features { builtin_http: false, builtin_messaging: true }";
const BOTH: &str = "Features { builtin_http: true, builtin_messaging: true }";

fn shown(flags: Features) -> String {
    format!("{:?}", flags)
}

#[test]
fn flags_are_disabled_by_default() {
    assert_eq!(shown(Features::default()), NONE);
}

#[test]
fn constructors_enable_one_flag() {
    assert_eq!(shown(Features::with_builtin_http()), HTTP);
    assert_eq!(shown(Features::with_builtin_messaging()), MESSAGING);
}

#[test]
fn flags_union() {
    let http = Features::with_builtin_http();
    let messaging = Features::with_builtin_messaging();
    assert_eq!(shown(http | messaging), BOTH);
    assert_eq!(shown(messaging | http), BOTH);
    assert_eq!(shown(http | http), HTTP);
    assert_eq!(shown(messaging | Features::default()), MESSAGING);
    assert_eq!(shown((http | messaging) | http), shown(http | (messaging | http)));
}

#[test]
fn flags_sum() {
    let http = Features::with_builtin_http();
    let messaging = Features::with_builtin_messaging();
    let empty: Vec<Features> = vec![];
    assert_eq!(shown(empty.into_iter().sum()), NONE);
    assert_eq!(shown(vec![http].into_iter().sum()), HTTP);
    assert_eq!(shown(vec![messaging, http, messaging].into_iter().sum()), BOTH);
    assert_eq!(shown(vec![http, messaging, messaging].into_iter().sum()), BOTH);
    assert_eq!(shown(Features::union_all(&vec![Features::default(), messaging])), MESSAGING);
}

#[test]
fn flags_sum_lazily() {
    let sum: Features = ["builtin-http", "nothing", "builtin_messaging"]
        .iter()
        .map(|name| Features::from(*name))
        .sum();
    assert_eq!(shown(sum), BOTH);
}

#[test]
fn flags_parse() {
    assert_eq!(shown(Features::from("builtin-http")), HTTP);
    assert_eq!(shown(Features::from("builtin_http")), HTTP);
    assert_eq!(shown(Features::from("builtin-messaging")), MESSAGING);
    assert_eq!(shown(Features::from("builtin_messaging")), MESSAGING);
}

#[test]
fn flags_parse_in_any_case() {
    assert_eq!(shown(Features::from("BUILTIN-HTTP")), HTTP);
    assert_eq!(shown(Features::from("Builtin_Messaging")), MESSAGING);
}

#[test]
fn unknown_flags_enable_nothing() {
    for name in ["", "http", "builtin http", "builtin-http ", "bu\u{131}ltin-http"] {
        assert_eq!(shown(Features::from(name)), NONE);
        assert!(Features::named(name).is_none());
    }
    assert!(Features::named("builtin-http").is_some());
}
