//! Search patterns and the ids under which they are stored.
//!
//! An id is the letter `p` followed by a counter in decimal. The counter
//! starts at one and only grows, so an id is never handed out twice.

use papaya::HashMap;
use rustc_hash::FxBuildHasher;
use vstd::prelude::*;
use vstd::string::StringExecFns;

verus! {

/// The handle of a stored pattern.
#[derive(Clone, Debug, PartialEq, Eq, Hash)]
pub struct PatternId(pub String);

/// A search query as the store keeps it.
pub struct Pattern {
    /// The query's source text.
    pub source: String,
}

impl Clone for Pattern {
    fn clone(&self) -> (r: Pattern)
        ensures
            r == *self,
    {
        Pattern { source: self.source.clone() }
    }
}

/// The character of a decimal digit.
pub open spec fn digit_char(d: int) -> char {
    if d == 0 {
        '0'
    } else if d == 1 {
        '1'
    } else if d == 2 {
        '2'
    } else if d == 3 {
        '3'
    } else if d == 4 {
        '4'
    } else if d == 5 {
        '5'
    } else if d == 6 {
        '6'
    } else if d == 7 {
        '7'
    } else if d == 8 {
        '8'
    } else {
        '9'
    }
}

/// Whether a character is a decimal digit.
pub open spec fn is_digit(c: char) -> bool {
    exists|d: int| 0 <= d < 10 && c == digit_char(d)
}

/// A number in decimal, without leading zeros.
pub open spec fn decimal(n: nat) -> Seq<char>
    decreases n,
{
    if n < 10 {
        seq![digit_char(n as int)]
    } else {
        decimal(n / 10).push(digit_char((n % 10) as int))
    }
}

/// The id that belongs to a counter value.
pub open spec fn pattern_id_text(n: nat) -> Seq<char> {
    seq!['p'] + decimal(n)
}

/// Whether a text has the shape of an id: `p`, then one or more digits.
pub open spec fn is_pattern_id(text: Seq<char>) -> bool {
    &&& text.len() >= 2
    &&& text[0] == 'p'
    &&& forall|i: int| 1 <= i < text.len() ==> is_digit(#[trigger] text[i])
}

/// A decimal is made of digits, at least one.
pub proof fn lemma_decimal_digits(n: nat)
    ensures
        decimal(n).len() >= 1,
        n >= 10 ==> decimal(n).len() >= 2,
        forall|i: int| 0 <= i < decimal(n).len() ==> is_digit(#[trigger] decimal(n)[i]),
    decreases n,
{
    if n < 10 {
        assert(is_digit(digit_char(n as int)));
    } else {
        lemma_decimal_digits(n / 10);
        assert(is_digit(digit_char((n % 10) as int)));
        assert forall|i: int| 0 <= i < decimal(n).len() implies is_digit(#[trigger] decimal(n)[i]) by {
            if i < decimal(n / 10).len() {
                assert(decimal(n)[i] == decimal(n / 10)[i]);
            }
        }
    }
}

/// Different digits have different characters.
pub proof fn lemma_digit_injective(x: int, y: int)
    requires
        0 <= x < 10,
        0 <= y < 10,
        digit_char(x) == digit_char(y),
    ensures
        x == y,
{
    assert(digit_char(x) as u32 == 48 + x);
    assert(digit_char(y) as u32 == 48 + y);
}

/// Different numbers have different decimals.
pub proof fn lemma_decimal_injective(a: nat, b: nat)
    requires
        decimal(a) == decimal(b),
    ensures
        a == b,
    decreases a,
{
    lemma_decimal_digits(a);
    lemma_decimal_digits(b);
    if a < 10 || b < 10 {
        assert(a < 10 && b < 10);
        assert(decimal(a)[0] == digit_char(a as int));
        assert(decimal(b)[0] == digit_char(b as int));
        lemma_digit_injective(a as int, b as int);
    } else {
        let da = decimal(a / 10);
        let db = decimal(b / 10);
        let ca = digit_char((a % 10) as int);
        let cb = digit_char((b % 10) as int);
        assert(da.push(ca).drop_last() == da);
        assert(db.push(cb).drop_last() == db);
        assert(da.push(ca).last() == ca);
        assert(db.push(cb).last() == cb);
        lemma_decimal_injective(a / 10, b / 10);
        lemma_digit_injective((a % 10) as int, (b % 10) as int);
    }
}

/// Every counter value gives a text of the shape of an id, and different
/// counter values give different ids.
pub proof fn lemma_pattern_ids(a: nat, b: nat)
    ensures
        is_pattern_id(pattern_id_text(a)),
        a != b ==> pattern_id_text(a) != pattern_id_text(b),
{
    lemma_decimal_digits(a);
    let text = pattern_id_text(a);
    assert forall|i: int| 1 <= i < text.len() implies is_digit(#[trigger] text[i]) by {
        assert(text[i] == decimal(a)[i - 1]);
    }
    if pattern_id_text(a) == pattern_id_text(b) {
        assert(pattern_id_text(a).subrange(1, pattern_id_text(a).len() as int) == decimal(a));
        assert(pattern_id_text(b).subrange(1, pattern_id_text(b).len() as int) == decimal(b));
        lemma_decimal_injective(a, b);
    }
}

fn digit_str(d: u64) -> (r: &'static str)
    requires
        d < 10,
    ensures
        r@ == seq![digit_char(d as int)],
{
    proof {
        reveal_strlit("0");
        reveal_strlit("1");
        reveal_strlit("2");
        reveal_strlit("3");
        reveal_strlit("4");
        reveal_strlit("5");
        reveal_strlit("6");
        reveal_strlit("7");
        reveal_strlit("8");
        reveal_strlit("9");
    }
    let r = if d == 0 {
        "0"
    } else if d == 1 {
        "1"
    } else if d == 2 {
        "2"
    } else if d == 3 {
        "3"
    } else if d == 4 {
        "4"
    } else if d == 5 {
        "5"
    } else if d == 6 {
        "6"
    } else if d == 7 {
        "7"
    } else if d == 8 {
        "8"
    } else {
        "9"
    };
    assert(r@ =~= seq![digit_char(d as int)]);
    r
}

/// Writes a number in decimal.
pub fn decimal_string(n: u64) -> (r: String)
    ensures
        r@ == decimal(n as nat),
    decreases n,
{
    if n < 10 {
        String::from_str(digit_str(n))
    } else {
        let mut text = decimal_string(n / 10);
        text.append(digit_str(n % 10));
        assert(text@ =~= decimal(n as nat));
        text
    }
}

/// The number that decimal digits stand for, the most significant first.
pub open spec fn number_of(digits: Seq<u8>) -> nat
    decreases digits.len(),
{
    if digits.len() == 0 {
        0
    } else {
        number_of(digits.drop_last()) * 10 + digits.last() as nat
    }
}

/// Whether a sequence is the decimal writing of a number: at least one
/// digit, each below ten, and no zero in front of other digits.
pub open spec fn proper_digits(digits: Seq<u8>) -> bool {
    &&& digits.len() >= 1
    &&& forall|i: int| 0 <= i < digits.len() ==> #[trigger] digits[i] < 10
    &&& digits.len() > 1 ==> digits[0] != 0
}

/// The characters of a sequence of digits.
pub open spec fn digit_chars(digits: Seq<u8>) -> Seq<char> {
    Seq::new(digits.len(), |i: int| digit_char(digits[i] as int))
}

/// Appending a digit multiplies by ten and adds the digit.
pub proof fn lemma_number_of_push(digits: Seq<u8>, digit: u8)
    ensures
        number_of(digits.push(digit)) == number_of(digits) * 10 + digit,
{
    assert(digits.push(digit).drop_last() =~= digits);
}

/// The digits of a number are its decimal; and digits that start with a
/// digit other than zero stand for a number that is not zero.
pub proof fn lemma_digits_are_decimal(digits: Seq<u8>)
    requires
        proper_digits(digits),
    ensures
        digit_chars(digits) == decimal(number_of(digits)),
        digits[0] != 0 ==> number_of(digits) >= 1,
    decreases digits.len(),
{
    let front = digits.drop_last();
    let last = digits.last();
    if digits.len() == 1 {
        assert(front.len() == 0);
        assert(number_of(digits) == last);
        assert(digit_chars(digits) =~= decimal(last as nat));
    } else {
        assert(proper_digits(front)) by {
            assert forall|i: int| 0 <= i < front.len() implies #[trigger] front[i] < 10 by {
                assert(front[i] == digits[i]);
            }
        }
        lemma_digits_are_decimal(front);
        let value = number_of(front);
        assert(front[0] == digits[0]);
        assert(value >= 1);
        let n = value * 10 + last as nat;
        assert(number_of(digits) == n);
        assert(n >= 10 && n / 10 == value && n % 10 == last as nat);
        assert(digit_chars(digits) =~= digit_chars(front).push(digit_char(last as int)));
    }
}

/// A counter that cannot run out: it holds its value in decimal digits.
pub struct PatternCounter {
    digits: Vec<u8>,
}

/// Adds one to a number held in decimal digits.
fn increment(digits: &mut Vec<u8>)
    requires
        forall|i: int| 0 <= i < old(digits)@.len() ==> #[trigger] old(digits)@[i] < 10,
        old(digits)@.len() > 1 ==> old(digits)@[0] != 0,
    ensures
        number_of(final(digits)@) == number_of(old(digits)@) + 1,
        final(digits)@.len() >= 1,
        forall|i: int| 0 <= i < final(digits)@.len() ==> #[trigger] final(digits)@[i] < 10,
        final(digits)@[0] != 0,
    decreases old(digits)@.len(),
{
    let ghost before = digits@;
    match digits.pop() {
        None => {
            digits.push(1);
            proof {
                lemma_number_of_push(Seq::<u8>::empty(), 1);
                assert(digits@ =~= Seq::<u8>::empty().push(1u8));
            }
        },
        Some(last) => {
            let ghost front = digits@;
            proof {
                assert(front =~= before.drop_last());
                assert(last == before.last());
                assert(last < 10);
                assert forall|i: int| 0 <= i < front.len() implies #[trigger] front[i] < 10 by {
                    assert(front[i] == before[i]);
                }
                if front.len() >= 1 {
                    assert(front[0] == before[0]);
                }
            }
            if last < 9 {
                digits.push(last + 1);
                proof {
                    lemma_number_of_push(front, (last + 1) as u8);
                }
            } else {
                increment(digits);
                let ghost carried = digits@;
                digits.push(0);
                proof {
                    lemma_number_of_push(carried, 0);
                }
            }
        },
    }
}

/// The decimal digits of a number.
fn digits_of(n: u64) -> (r: Vec<u8>)
    ensures
        proper_digits(r@),
        number_of(r@) == n,
        n >= 1 ==> r@[0] != 0,
    decreases n,
{
    if n < 10 {
        let mut digits: Vec<u8> = Vec::new();
        digits.push(n as u8);
        proof {
            lemma_number_of_push(Seq::<u8>::empty(), n as u8);
            assert(digits@ =~= Seq::<u8>::empty().push(n as u8));
        }
        digits
    } else {
        let mut digits = digits_of(n / 10);
        let ghost front = digits@;
        digits.push((n % 10) as u8);
        proof {
            lemma_number_of_push(front, (n % 10) as u8);
            assert(digits@[0] == front[0]);
        }
        digits
    }
}

impl PatternCounter {
    /// The counter's value.
    pub closed spec fn value(&self) -> nat {
        number_of(self.digits@)
    }

    /// The digits are the decimal writing of the value.
    pub closed spec fn wf(&self) -> bool {
        proper_digits(self.digits@)
    }

    /// A counter at one.
    pub fn new() -> (r: PatternCounter)
        ensures
            r.wf(),
            r.value() == 1,
    {
        PatternCounter { digits: digits_of(1) }
    }

    /// A counter at the given value.
    pub fn starting_at(value: u64) -> (r: PatternCounter)
        ensures
            r.wf(),
            r.value() == value,
    {
        PatternCounter { digits: digits_of(value) }
    }

    /// The counter's value in decimal.
    pub fn text(&self) -> (r: String)
        requires
            self.wf(),
        ensures
            r@ == decimal(self.value()),
    {
        let mut text = String::new();
        let mut i: usize = 0;
        while i < self.digits.len()
            invariant
                self.wf(),
                i <= self.digits@.len(),
                text@ == digit_chars(self.digits@.subrange(0, i as int)),
            decreases self.digits@.len() - i,
        {
            let digit = self.digits[i];
            text.append(digit_str(digit as u64));
            proof {
                assert(text@ =~= digit_chars(self.digits@.subrange(0, i as int + 1)));
            }
            i += 1;
        }
        proof {
            assert(self.digits@.subrange(0, i as int) =~= self.digits@);
            lemma_digits_are_decimal(self.digits@);
        }
        text
    }

    /// Adds one to the counter.
    pub fn advance(&mut self)
        requires
            old(self).wf(),
        ensures
            final(self).wf(),
            final(self).value() == old(self).value() + 1,
    {
        increment(&mut self.digits);
    }
}

/// Hands out the id of the counter's value and advances the counter. The
/// id is the letter `p` followed by the counter's value in decimal, and it
/// is the id of no other counter value: as the counter only grows and
/// cannot run out, no id is handed out twice.
pub fn make_search_pattern_id(counter: &mut PatternCounter) -> (id: PatternId)
    requires
        old(counter).wf(),
    ensures
        final(counter).wf(),
        id.0@ == pattern_id_text(old(counter).value()),
        is_pattern_id(id.0@),
        forall|n: nat| n != old(counter).value() ==> id.0@ != #[trigger] pattern_id_text(n),
        final(counter).value() == old(counter).value() + 1,
{
    proof {
        reveal_strlit("p");
        lemma_pattern_ids(counter.value(), counter.value());
        assert forall|n: nat| n != counter.value() implies pattern_id_text(counter.value())
            != #[trigger] pattern_id_text(n) by {
            lemma_pattern_ids(counter.value(), n);
        }
    }
    let mut text = String::from_str("p");
    let digits = counter.text();
    text.append(digits.as_str());
    assert(text@ =~= pattern_id_text(counter.value()));
    counter.advance();
    PatternId(text)
}

/// The concurrent map that holds the patterns.
pub type PatternMap = HashMap<String, Pattern, FxBuildHasher>;

/// The entries that a map of patterns holds: each id with its pattern.
pub uninterp spec fn stored_patterns(map: PatternMap) -> Map<Seq<char>, Pattern>;

/// The store's content when no pattern is stored.
pub open spec fn no_patterns() -> Map<Seq<char>, Pattern> {
    Map::empty()
}

/// `papaya::HashMap::with_hasher`: a map without entries.
#[verifier::external_body]
fn pattern_map_new() -> (r: PatternMap)
    ensures
        stored_patterns(r) == no_patterns(),
{
    HashMap::with_hasher(FxBuildHasher)
}

/// `papaya::HashMapRef::get` under a fresh pin: a copy of the pattern stored
/// under the id, if there is one.
#[verifier::external_body]
fn pattern_map_get(map: &PatternMap, id: &str) -> (r: Option<Pattern>)
    ensures
        r == (if stored_patterns(*map).contains_key(id@) {
            Some(stored_patterns(*map)[id@])
        } else {
            None
        }),
{
    map.pin().get(id).cloned()
}

/// `papaya::HashMapRef::insert` under a fresh pin: stores the pattern under
/// the id, whatever was there.
#[verifier::external_body]
fn pattern_map_insert(map: &mut PatternMap, id: String, pattern: Pattern)
    ensures
        stored_patterns(*final(map)) == stored_patterns(*old(map)).insert(id@, pattern),
{
    map.pin().insert(id, pattern);
}

/// `papaya::HashMapRef::remove` under a fresh pin: the id has no entry
/// afterwards, and every other entry is as before.
#[verifier::external_body]
fn pattern_map_remove(map: &mut PatternMap, id: &str)
    ensures
        stored_patterns(*final(map)) == stored_patterns(*old(map)).remove(id@),
{
    map.pin().remove(id);
}

/// The stored patterns and the counter their ids come from.
pub struct PatternStore {
    map: PatternMap,
    counter: PatternCounter,
}

impl View for PatternStore {
    type V = Map<Seq<char>, Pattern>;

    closed spec fn view(&self) -> Map<Seq<char>, Pattern> {
        stored_patterns(self.map)
    }
}

impl PatternStore {
    /// The counter value of the next id.
    pub closed spec fn next(&self) -> nat {
        self.counter.value()
    }

    /// The representation is sound: the counter holds its value in proper
    /// digits.
    pub closed spec fn coherent(&self) -> bool {
        self.counter.wf()
    }

    /// The counter starts at one, and every stored id was handed out before.
    pub open spec fn wf(&self) -> bool {
        &&& self.coherent()
        &&& self.next() >= 1
        &&& forall|id: Seq<char>| #[trigger]
            self@.contains_key(id) ==> exists|n: nat| 1 <= n < self.next() && id == pattern_id_text(n)
    }

    /// A store without patterns, whose ids start at counter value one.
    pub fn new() -> (r: PatternStore)
        ensures
            r.wf(),
            r@ == no_patterns(),
            r.next() == 1,
    {
        PatternStore { map: pattern_map_new(), counter: PatternCounter::new() }
    }

    /// Stores a pattern under a fresh id and returns the id. The id is the
    /// id of no other counter value, and the counter cannot run out.
    pub fn parse_pattern(&mut self, pattern: Pattern) -> (id: PatternId)
        requires
            old(self).wf(),
        ensures
            final(self).wf(),
            id.0@ == pattern_id_text(old(self).next()),
            is_pattern_id(id.0@),
            forall|n: nat| n != old(self).next() ==> id.0@ != #[trigger] pattern_id_text(n),
            !old(self)@.contains_key(id.0@),
            final(self).next() == old(self).next() + 1,
            final(self)@ == old(self)@.insert(id.0@, pattern),
    {
        let ghost n = self.counter.value();
        let id = make_search_pattern_id(&mut self.counter);
        proof {
            if old(self)@.contains_key(id.0@) {
                let k = choose|k: nat| 1 <= k < old(self).next() && id.0@ == pattern_id_text(k);
                assert(id.0@ != pattern_id_text(k));
            }
        }
        pattern_map_insert(&mut self.map, id.0.clone(), pattern);
        proof {
            assert forall|text: Seq<char>| #[trigger] self@.contains_key(text) implies exists|k: nat|
                1 <= k < self.next() && text == pattern_id_text(k) by {
                if text == id.0@ {
                    assert(1 <= n < self.next() && text == pattern_id_text(n));
                } else {
                    assert(old(self)@.contains_key(text));
                    let k = choose|k: nat| 1 <= k < old(self).next() && text == pattern_id_text(k);
                    assert(1 <= k < self.next() && text == pattern_id_text(k));
                }
            }
        }
        id
    }

    /// A copy of the pattern stored under `id`.
    pub fn get(&self, id: &PatternId) -> (r: Option<Pattern>)
        ensures
            r == (if self@.contains_key(id.0@) {
                Some(self@[id.0@])
            } else {
                None
            }),
    {
        pattern_map_get(&self.map, id.0.as_str())
    }

    /// Forgets the pattern stored under `id`, if there is one. The id is not
    /// handed out again.
    pub fn drop_pattern(&mut self, id: &PatternId)
        requires
            old(self).wf(),
        ensures
            final(self).wf(),
            final(self).next() == old(self).next(),
            final(self)@ == old(self)@.remove(id.0@),
    {
        pattern_map_remove(&mut self.map, id.0.as_str());
        proof {
            assert forall|text: Seq<char>| #[trigger] self@.contains_key(text) implies exists|k: nat|
                1 <= k < self.next() && text == pattern_id_text(k) by {
                assert(old(self)@.contains_key(text));
            }
        }
    }
}

} // verus!
