use init_token::guarded::Static;
use init_token::initializer::InitFailure;
use init_token::initializer::Initializer;
use init_token::token::Token;
use init_token::token::TokenWrapper;

/// Succeeds, writing a fixed value.
struct FixedInit {
    value: i32,
}

impl Initializer<i32> for FixedInit {
    fn run(&mut self, storage: &mut i32) -> Result<(), InitFailure> {
        *storage = self.value;
        Ok(())
    }
}

/// A caller-defined token type wrapping the raw token.
#[derive(Clone, Copy, PartialEq, Eq, Debug)]
struct MyToken {
    raw: Token,
}

impl TokenWrapper for MyToken {
    fn owner_spec(&self) -> u64 {
        self.raw.owner()
    }

    fn wrap(token: Token) -> Self {
        MyToken { raw: token }
    }

    fn token(&self) -> Token {
        self.raw
    }
}

#[test]
fn tokens_for_same_owner_are_equal() {
    let mut s = Static::new(21, 0i32, FixedInit { value: 10 });
    let t1 = s.init().unwrap();
    let t2 = s.init().unwrap();
    assert_eq!(t1, t2);
    assert_eq!(t1.owner(), 21);
    assert_eq!(t2.owner(), 21);
    let copy = t1;
    assert_eq!(copy, t2);
}

#[test]
fn every_token_reads_the_same_value() {
    let mut s = Static::new(22, 0i32, FixedInit { value: 77 });
    let t1 = s.init().unwrap();
    let t2 = s.init().unwrap();
    assert_eq!(*s.get_value(&t1), 77);
    assert_eq!(*s.get_value(&t2), 77);
    assert_eq!(*s.try_get_value(&t1).unwrap(), 77);
}

#[test]
fn tokens_are_not_interchangeable_between_guarded_values() {
    let mut a = Static::new(31, 0i32, FixedInit { value: 1 });
    let mut b = Static::new(32, 0i32, FixedInit { value: 2 });
    let ta = a.init().unwrap();
    let tb = b.init().unwrap();
    assert_ne!(ta, tb);
    // The checked read refuses a token bound to the other guarded value.
    assert!(a.try_get_value(&tb).is_none());
    assert!(b.try_get_value(&ta).is_none());
    assert_eq!(*a.try_get_value(&ta).unwrap(), 1);
    assert_eq!(*b.try_get_value(&tb).unwrap(), 2);
}

#[test]
fn no_read_before_initialization() {
    let s = Static::new(33, 0i32, FixedInit { value: 1 });
    let mut other = Static::new(33, 0i32, FixedInit { value: 9 });
    // Even a token bound to the same identifier does not unlock a guarded
    // value that has not reached the initialized state.
    let forged = other.init().unwrap();
    assert!(s.try_get_value(&forged).is_none());
}

#[test]
fn wrapped_tokens_keep_their_owner() {
    let mut s = Static::new(41, 0i32, FixedInit { value: 6 });
    let w: MyToken = s.init_wrapped().unwrap();
    assert_eq!(w.token().owner(), 41);
    let raw = s.init().unwrap();
    assert_eq!(MyToken::wrap(raw), w);
    assert_eq!(*s.get_value(&w.token()), 6);
}

#[test]
fn tokens_order_and_hash_by_owner() {
    let mut a = Static::new(61, 0i32, FixedInit { value: 1 });
    let mut b = Static::new(62, 0i32, FixedInit { value: 2 });
    let ta1 = a.init().unwrap();
    let ta2 = a.init().unwrap();
    let tb = b.init().unwrap();
    // Equal tokens are not ordered apart; distinct owners are.
    assert!(!(ta1 < ta2) && !(ta2 < ta1));
    assert!(ta1 < tb || tb < ta1);
    let mut set = std::collections::HashSet::new();
    set.insert(ta1);
    set.insert(ta2);
    set.insert(tb);
    assert_eq!(set.len(), 2);
}

#[test]
fn raw_token_is_its_own_wrapper() {
    let mut s = Static::new(42, 0i32, FixedInit { value: 4 });
    let t = s.init().unwrap();
    let w: Token = Token::wrap(t);
    assert_eq!(w, t);
    assert_eq!(TokenWrapper::token(&w), t);
}
