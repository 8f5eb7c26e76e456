//! Identifiers, tokens and the sequence.

use reactors::ids::{EndpointId, Ready, Sequence, Token, BUS_TOKEN, CHANNEL_TOKEN, ID_LIMIT, TIMER_TOKEN};
use reactors::routing::{token_source, Source};

#[test]
fn reserved_tokens_sit_at_the_top() {
    assert_eq!(CHANNEL_TOKEN, usize::MAX - 1);
    assert_eq!(BUS_TOKEN, usize::MAX - 2);
    assert_eq!(TIMER_TOKEN, usize::MAX - 3);
    assert_eq!(ID_LIMIT, usize::MAX - 3);
    assert_eq!(Token::channel(), Token(usize::MAX - 1));
    assert_eq!(Token::bus(), Token(usize::MAX - 2));
    assert_eq!(Token::timer(), Token(usize::MAX - 3));
}

#[test]
fn sequence_starts_at_one_and_grows() {
    let mut seq = Sequence::new();
    assert_eq!(seq.peek_next(), Some(1));
    let mut last = 0;
    for expected in 1..1000usize {
        let id = seq.next().unwrap();
        assert_eq!(id, expected);
        assert!(id > last);
        assert!(id < TIMER_TOKEN);
        last = id;
    }
    assert_eq!(seq.peek_next(), Some(1000));
    assert_eq!(seq.peek_next(), Some(1000));
    assert_eq!(seq.next(), Some(1000));
}

#[test]
fn tokens_name_their_sources() {
    assert_eq!(token_source(Token(usize::MAX - 1)), Source::Channel);
    assert_eq!(token_source(Token(usize::MAX - 2)), Source::Bus);
    assert_eq!(token_source(Token(usize::MAX - 3)), Source::Timer);
    assert_eq!(token_source(Token(usize::MAX - 4)), Source::Endpoint(EndpointId(usize::MAX - 4)));
    assert_eq!(token_source(Token(usize::MAX)), Source::Endpoint(EndpointId(usize::MAX)));
    assert_eq!(token_source(Token(0)), Source::Endpoint(EndpointId(0)));
    assert_eq!(token_source(Token(7)), Source::Endpoint(EndpointId(7)));
}

#[test]
fn endpoint_token_is_its_identifier() {
    assert_eq!(EndpointId(12).token(), Token(12));
    assert_eq!(Ready::readable(), Ready(1));
    assert_eq!(Ready::writable(), Ready(2));
}

#[test]
fn sequence_stops_below_the_reserved_tokens() {
    let mut seq = Sequence::starting_at(usize::MAX - 5);
    assert_eq!(seq.next(), Some(usize::MAX - 5));
    assert_eq!(seq.next(), Some(usize::MAX - 4));
    assert_eq!(seq.peek_next(), None);
    assert_eq!(seq.next(), None);
    assert_eq!(seq.next(), None);
    for start in [usize::MAX - 3, usize::MAX - 2, usize::MAX - 1, usize::MAX] {
        let mut seq = Sequence::starting_at(start);
        assert_eq!(seq.next(), None);
    }
    let mut seq = Sequence::starting_at(0);
    assert_eq!(seq.next(), Some(0));
    assert_eq!(seq.next(), Some(1));
}
