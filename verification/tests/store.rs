use poll_contract::contract::{parse_choice, Choice};
use poll_contract::error::ContractError;
use poll_contract::msg::{attr, Attribute, Response};
use poll_contract::state::{Config, Poll, Store};

#[test]
fn test_store_starts_empty() {
    let store = Store::new();
    assert_eq!(store.load_config().unwrap_err(), ContractError::NotFound);
    assert!(!store.has_poll(&"anything".to_string()));
    assert_eq!(
        store.load_poll(&"anything".to_string()).unwrap_err(),
        ContractError::NotFound
    );
    assert_eq!(store.load_poll_optional(&"anything".to_string()), None);
}

#[test]
fn test_save_config_overwrites() {
    let mut store = Store::new();
    store.save_config(Config {
        admin_address: "addr1".to_string(),
    });
    assert_eq!(
        store.load_config().unwrap(),
        Config {
            admin_address: "addr1".to_string()
        }
    );

    store.save_config(Config {
        admin_address: "addr2".to_string(),
    });
    assert_eq!(
        store.load_config().unwrap(),
        Config {
            admin_address: "addr2".to_string()
        }
    );
}

#[test]
fn test_save_poll_and_read_back() {
    let mut store = Store::new();
    let q1 = "First?".to_string();
    let q2 = "Second?".to_string();

    store.save_poll(
        q1.clone(),
        Poll {
            question: q1.clone(),
            yes_votes: 2,
            no_votes: 3,
        },
    );
    store.save_poll(
        q2.clone(),
        Poll {
            question: q2.clone(),
            yes_votes: 5,
            no_votes: 7,
        },
    );

    assert!(store.has_poll(&q1));
    assert!(store.has_poll(&q2));
    assert!(!store.has_poll(&"Third?".to_string()));

    let p1 = store.load_poll(&q1).unwrap();
    assert_eq!((p1.yes_votes, p1.no_votes), (2, 3));

    // An overwrite under q1 replaces that record and leaves q2 alone.
    store.save_poll(
        q1.clone(),
        Poll {
            question: q1.clone(),
            yes_votes: 9,
            no_votes: 9,
        },
    );
    let p1 = store.load_poll(&q1).unwrap();
    assert_eq!((p1.yes_votes, p1.no_votes), (9, 9));
    let p2 = store.load_poll(&q2).unwrap();
    assert_eq!((p2.yes_votes, p2.no_votes), (5, 7));
}

#[test]
fn test_parse_choice_exact_literals() {
    assert_eq!(parse_choice(&"yes".to_string()), Some(Choice::Yes));
    assert_eq!(parse_choice(&"no".to_string()), Some(Choice::No));
    assert_eq!(parse_choice(&"maybe".to_string()), None);
    assert_eq!(parse_choice(&"Yes".to_string()), None);
    assert_eq!(parse_choice(&"NO".to_string()), None);
    assert_eq!(parse_choice(&"".to_string()), None);
    assert_eq!(parse_choice(&"yes ".to_string()), None);
}

#[test]
fn test_response_keeps_attribute_order() {
    let resp = Response::new()
        .add_attribute("action", "vote")
        .add_attribute("sender", "addr1");
    assert_eq!(
        resp.attributes,
        vec![attr("action", "vote"), attr("sender", "addr1")]
    );

    let a = attr("action", "instantiate");
    assert_eq!(
        a,
        Attribute {
            key: "action".to_string(),
            value: "instantiate".to_string()
        }
    );
}
