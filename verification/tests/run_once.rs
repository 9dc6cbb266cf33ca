use init_token::gate::GateState;
use init_token::guarded::Static;
use init_token::initializer::InitFailure;
use init_token::initializer::Initializer;

/// Writes a fixed value and counts how many times it was executed.
struct CountingInit {
    runs: u64,
    value: i32,
}

impl Initializer<i32> for CountingInit {
    fn run(&mut self, storage: &mut i32) -> Result<(), InitFailure> {
        self.runs += 1;
        *storage = self.value;
        Ok(())
    }
}

/// Parses the text it was constructed with, counting the parses.
struct ParseInit {
    text: String,
    parses: u64,
}

impl Initializer<i64> for ParseInit {
    fn run(&mut self, storage: &mut i64) -> Result<(), InitFailure> {
        self.parses += 1;
        match self.text.parse::<i64>() {
            Ok(v) => {
                *storage = v;
                Ok(())
            }
            Err(_) => Err(InitFailure { code: 1 }),
        }
    }
}

#[test]
fn initializer_runs_exactly_once_over_many_calls() {
    let mut s = Static::new(1, 0i32, CountingInit { runs: 0, value: 42 });
    let first = s.init().unwrap();
    let mut k: u32 = 0;
    while k < 10 {
        let again = s.init().unwrap();
        assert_eq!(first, again);
        k += 1;
    }
    assert_eq!(s.initializer().runs, 1);
    assert_eq!(*s.get_value(&first), 42);
    assert!(matches!(s.state(), GateState::Initialized));
}

#[test]
fn init_is_idempotent_after_success() {
    let mut s = Static::new(9, 0i32, CountingInit { runs: 0, value: -7 });
    let t1 = s.init().unwrap();
    let t2 = s.init().unwrap();
    assert_eq!(t1, t2);
    assert_eq!(s.initializer().runs, 1);
    assert_eq!(*s.get_value(&t1), -7);
    assert_eq!(*s.get_value(&t2), -7);
}

#[test]
fn two_simulated_callers_share_one_execution() {
    // Two callers racing on a fresh guarded value, serialized by the init gate:
    // the loser of the claim simply observes the winner's outcome.
    let mut s = Static::new(3, 0i32, CountingInit { runs: 0, value: 42 });
    let caller_a = s.init().unwrap();
    let caller_b = s.init().unwrap();
    assert_eq!(s.initializer().runs, 1);
    assert_eq!(*s.get_value(&caller_a), 42);
    assert_eq!(*s.get_value(&caller_b), 42);
    assert_eq!(caller_a, caller_b);
}

#[test]
fn guarded_integer_parses_text_once() {
    let mut s = Static::new(
        5,
        0i64,
        ParseInit { text: String::from("-123"), parses: 0 },
    );
    let token = s.init().unwrap();
    assert_eq!(*s.get_value(&token), -123);
    let token2 = s.init().unwrap();
    assert_eq!(*s.get_value(&token2), -123);
    assert_eq!(s.initializer().parses, 1);
}

#[test]
fn fresh_guarded_value_is_uninitialized() {
    let s = Static::new(8, 0i32, CountingInit { runs: 0, value: 1 });
    assert!(matches!(s.state(), GateState::Uninitialized));
    assert_eq!(s.id(), 8);
    assert_eq!(s.initializer().runs, 0);
}
