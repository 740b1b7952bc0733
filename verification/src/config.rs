//! Core configuration: a name and free-form parameters whose values follow
//! the JSON data model. A JSON floating-point number is held exactly, as a
//! sign, an integer mantissa and a binary exponent.

use vstd::prelude::*;

verus! {

/// `2` to the power `e`.
pub open spec fn pow2n(e: nat) -> nat
    decreases e,
{
    if e == 0 { 1 } else { 2 * pow2n((e - 1) as nat) }
}

/// A JSON number.
#[derive(Debug, Clone, Copy, PartialEq, Eq, Structural)]
pub enum JsonNumber {
    /// A non-negative integer.
    PosInt(u64),
    /// A negative integer.
    NegInt(i64),
    /// A finite floating-point number equal to
    /// `(-1)^negative * mantissa * 2^exponent`.
    Float { negative: bool, mantissa: u64, exponent: i32 },
}

/// A JSON value.
#[derive(Debug, Clone)]
pub enum ConfigValue {
    Null,
    Bool(bool),
    Number(JsonNumber),
    Text(String),
    /// An array or an object.
    Composite,
}

/// The number is at most zero (its `f64` value satisfies `<= 0.0`).
pub open spec fn number_nonpositive(n: JsonNumber) -> bool {
    match n {
        JsonNumber::PosInt(v) => v == 0,
        JsonNumber::NegInt(v) => v <= 0,
        JsonNumber::Float { negative, mantissa, exponent } => negative || mantissa == 0,
    }
}

/// The number exceeds `limit`. For an integer this is the comparison of its
/// `f64` value with `limit` when `limit` is below `2^53`, since conversion
/// to `f64` is exact below `2^53` and monotone above; for a float it is the
/// exact comparison.
pub open spec fn number_exceeds(n: JsonNumber, limit: nat) -> bool {
    match n {
        JsonNumber::PosInt(v) => v > limit,
        JsonNumber::NegInt(v) => v > limit,
        JsonNumber::Float { negative, mantissa, exponent } => !negative && if exponent >= 0 {
            mantissa * pow2n(exponent as nat) > limit
        } else {
            mantissa > limit * pow2n((-exponent) as nat)
        },
    }
}

/// What `serde_json::Value::as_u64` gives for a value.
pub open spec fn value_as_u64(v: ConfigValue) -> Option<u64> {
    match v {
        ConfigValue::Number(JsonNumber::PosInt(n)) => Some(n),
        ConfigValue::Number(JsonNumber::NegInt(n)) => if n >= 0 {
            Some(n as u64)
        } else {
            None
        },
        _ => None,
    }
}

/// The number of a value, if it is one (`serde_json::Value::as_f64` gives a
/// number exactly then).
pub open spec fn value_number(v: ConfigValue) -> Option<JsonNumber> {
    match v {
        ConfigValue::Number(n) => Some(n),
        _ => None,
    }
}

proof fn lemma_pow2n_positive(e: nat)
    ensures
        pow2n(e) >= 1,
    decreases e,
{
    if e > 0 {
        lemma_pow2n_positive((e - 1) as nat);
    }
}

proof fn lemma_pow2n_monotone(a: nat, b: nat)
    requires
        a <= b,
    ensures
        pow2n(a) <= pow2n(b),
    decreases b,
{
    if a < b {
        lemma_pow2n_monotone(a, (b - 1) as nat);
    }
}

proof fn lemma_pow2n_64()
    ensures
        pow2n(64) == 0x1_0000_0000_0000_0000,
{
    reveal_with_fuel(pow2n, 65);
}

/// `2^e` for `e < 64`.
fn pow2_u128(e: u32) -> (r: u128)
    requires
        e < 64,
    ensures
        r == pow2n(e as nat),
        r < 0x1_0000_0000_0000_0000,
{
    let mut p: u128 = 1;
    let mut i: u32 = 0;
    while i < e
        invariant
            i <= e,
            e < 64,
            p == pow2n(i as nat),
        decreases e - i,
    {
        proof {
            lemma_pow2n_monotone((i + 1) as nat, 64);
            lemma_pow2n_64();
        }
        p = p * 2;
        i = i + 1;
    }
    proof {
        lemma_pow2n_monotone(e as nat, 63);
        lemma_pow2n_64();
    }
    p
}

/// Whether a number is at most zero.
pub fn is_nonpositive(n: &JsonNumber) -> (r: bool)
    ensures
        r == number_nonpositive(*n),
{
    match n {
        JsonNumber::PosInt(v) => *v == 0,
        JsonNumber::NegInt(v) => *v <= 0,
        JsonNumber::Float { negative, mantissa, exponent } => *negative || *mantissa == 0,
    }
}

/// Whether a number exceeds `limit` (see [`number_exceeds`]).
pub fn exceeds(n: &JsonNumber, limit: u64) -> (r: bool)
    requires
        limit >= 1,
    ensures
        r == number_exceeds(*n, limit as nat),
{
    match n {
        JsonNumber::PosInt(v) => *v > limit,
        JsonNumber::NegInt(v) => *v > 0 && (*v as u64) > limit,
        JsonNumber::Float { negative, mantissa, exponent } => {
            if *negative {
                return false;
            }
            let m = *mantissa;
            if *exponent >= 0 {
                let e = *exponent as u32;
                if m == 0 {
                    assert(m * pow2n(e as nat) == 0);
                    return false;
                }
                if e >= 64 {
                    proof {
                        lemma_pow2n_monotone(64, e as nat);
                        lemma_pow2n_64();
                        assert(m * pow2n(e as nat) >= pow2n(e as nat)) by (nonlinear_arith)
                            requires
                                m >= 1,
                        ;
                    }
                    return true;
                }
                let p = pow2_u128(e);
                proof {
                    assert((m as u128) * p < 0x1_0000_0000_0000_0000_0000_0000_0000_0000)
                        by (nonlinear_arith)
                        requires
                            m < 0x1_0000_0000_0000_0000,
                            p < 0x1_0000_0000_0000_0000,
                    ;
                }
                (m as u128) * p > limit as u128
            } else {
                let k: u32 = (0i64 - *exponent as i64) as u32;
                assert(k as int == -exponent);
                if k >= 64 {
                    proof {
                        lemma_pow2n_monotone(64, k as nat);
                        lemma_pow2n_64();
                        assert(limit * pow2n(k as nat) >= pow2n(k as nat)) by (nonlinear_arith)
                            requires
                                limit >= 1,
                        ;
                    }
                    return false;
                }
                let p = pow2_u128(k);
                proof {
                    assert((limit as u128) * p < 0x1_0000_0000_0000_0000_0000_0000_0000_0000)
                        by (nonlinear_arith)
                        requires
                            limit < 0x1_0000_0000_0000_0000,
                            p < 0x1_0000_0000_0000_0000,
                    ;
                }
                (m as u128) > (limit as u128) * p
            }
        },
    }
}

/// What `serde_json::Value::as_u64` gives for a value.
pub fn as_u64(v: &ConfigValue) -> (r: Option<u64>)
    ensures
        r == value_as_u64(*v),
{
    match v {
        ConfigValue::Number(JsonNumber::PosInt(n)) => Some(*n),
        ConfigValue::Number(JsonNumber::NegInt(n)) => if *n >= 0 {
            Some(*n as u64)
        } else {
            None
        },
        _ => None,
    }
}

/// The number of a value, if it is one.
pub fn as_number(v: &ConfigValue) -> (r: Option<JsonNumber>)
    ensures
        r == value_number(*v),
{
    match v {
        ConfigValue::Number(n) => Some(*n),
        _ => None,
    }
}

/// The value of the first entry with key `key`.
pub open spec fn lookup(entries: Seq<(String, ConfigValue)>, key: Seq<char>) -> Option<ConfigValue>
    decreases entries.len(),
{
    if entries.len() == 0 {
        None
    } else if entries[0].0@ == key {
        Some(entries[0].1)
    } else {
        lookup(entries.drop_first(), key)
    }
}

proof fn lemma_lookup_skip(entries: Seq<(String, ConfigValue)>, key: Seq<char>, i: int)
    requires
        0 <= i <= entries.len(),
        forall|j: int| 0 <= j < i ==> entries[j].0@ != key,
    ensures
        lookup(entries, key) == lookup(entries.skip(i), key),
    decreases i,
{
    if i > 0 {
        assert(entries[0].0@ != key);
        assert(lookup(entries, key) == lookup(entries.drop_first(), key));
        assert(entries.drop_first().skip(i - 1) =~= entries.skip(i));
        assert forall|j: int| 0 <= j < i - 1 implies entries.drop_first()[j].0@ != key by {
            assert(entries.drop_first()[j] == entries[j + 1]);
        }
        lemma_lookup_skip(entries.drop_first(), key, i - 1);
    } else {
        assert(entries.skip(0) =~= entries);
    }
}

proof fn lemma_lookup_update(
    entries: Seq<(String, ConfigValue)>,
    i: int,
    k: String,
    v: ConfigValue,
    other: Seq<char>,
)
    requires
        0 <= i < entries.len(),
        entries[i].0@ == k@,
        forall|j: int| 0 <= j < i ==> entries[j].0@ != k@,
    ensures
        lookup(entries.update(i, (k, v)), k@) == Some(v),
        other != k@ ==> lookup(entries.update(i, (k, v)), other) == lookup(entries, other),
    decreases i,
{
    let u = entries.update(i, (k, v));
    if i > 0 {
        assert(u.drop_first() =~= entries.drop_first().update(i - 1, (k, v)));
        assert forall|j: int| 0 <= j < i - 1 implies entries.drop_first()[j].0@ != k@ by {
            assert(entries.drop_first()[j] == entries[j + 1]);
        }
        lemma_lookup_update(entries.drop_first(), i - 1, k, v, other);
        assert(u[0] == entries[0]);
        assert(entries[0].0@ != k@);
    } else {
        assert(u.drop_first() =~= entries.drop_first());
        assert(u[0] == (k, v));
    }
}

proof fn lemma_lookup_push(
    entries: Seq<(String, ConfigValue)>,
    k: String,
    v: ConfigValue,
    other: Seq<char>,
)
    requires
        forall|j: int| 0 <= j < entries.len() ==> entries[j].0@ != k@,
    ensures
        lookup(entries.push((k, v)), k@) == Some(v),
        other != k@ ==> lookup(entries.push((k, v)), other) == lookup(entries, other),
    decreases entries.len(),
{
    let p = entries.push((k, v));
    if entries.len() > 0 {
        assert(p.drop_first() =~= entries.drop_first().push((k, v)));
        assert forall|j: int| 0 <= j < entries.len() - 1 implies entries.drop_first()[j].0@ != k@ by {
            assert(entries.drop_first()[j] == entries[j + 1]);
        }
        lemma_lookup_push(entries.drop_first(), k, v, other);
        assert(p[0] == entries[0]);
    } else {
        assert(p.drop_first() =~= entries);
        assert(p[0] == (k, v));
    }
}

/// Parameters keyed by name; a key occurs at most once after [`ConfigParams::insert`].
#[derive(Debug, Clone)]
pub struct ConfigParams {
    entries: Vec<(String, ConfigValue)>,
}

impl View for ConfigParams {
    type V = Seq<(String, ConfigValue)>;

    closed spec fn view(&self) -> Seq<(String, ConfigValue)> {
        self.entries@
    }
}

impl ConfigParams {
    /// No parameters.
    pub fn new() -> (r: ConfigParams)
        ensures
            forall|k: Seq<char>| lookup(r@, k) is None,
    {
        ConfigParams { entries: Vec::new() }
    }

    /// The value stored under `key`, if any.
    pub fn get(&self, key: &String) -> (r: Option<&ConfigValue>)
        ensures
            lookup(self@, key@) is None ==> r is None,
            lookup(self@, key@) matches Some(v) ==> r == Some(&v),
    {
        let mut i: usize = 0;
        while i < self.entries.len()
            invariant
                i <= self.entries@.len(),
                forall|j: int| 0 <= j < i ==> self.entries@[j].0@ != key@,
            decreases self.entries@.len() - i,
        {
            if self.entries[i].0 == *key {
                proof {
                    lemma_lookup_skip(self.entries@, key@, i as int);
                    assert(self.entries@.skip(i as int)[0] == self.entries@[i as int]);
                }
                return Some(&self.entries[i].1);
            }
            i = i + 1;
        }
        proof {
            lemma_lookup_skip(self.entries@, key@, i as int);
        }
        None
    }

    /// Stores `value` under `key`, replacing any value stored there before;
    /// other keys keep their values.
    pub fn insert(&mut self, key: String, value: ConfigValue)
        ensures
            lookup(final(self)@, key@) == Some(value),
            forall|k: Seq<char>| k != key@ ==> lookup(final(self)@, k) == lookup(old(self)@, k),
    {
        let mut i: usize = 0;
        while i < self.entries.len()
            invariant
                i <= self.entries@.len(),
                forall|j: int| 0 <= j < i ==> self.entries@[j].0@ != key@,
                self.entries@ == old(self).entries@,
            decreases self.entries@.len() - i,
        {
            if self.entries[i].0 == key {
                let ghost before = self.entries@;
                let ghost k2 = key;
                self.entries.set(i, (key, value));
                proof {
                    assert forall|k: Seq<char>| k != k2@ implies lookup(self.entries@, k) == lookup(
                        before,
                        k,
                    ) by {
                        lemma_lookup_update(before, i as int, k2, value, k);
                    }
                    lemma_lookup_update(before, i as int, k2, value, k2@);
                }
                return;
            }
            i = i + 1;
        }
        let ghost before = self.entries@;
        let ghost k2 = key;
        self.entries.push((key, value));
        proof {
            assert forall|k: Seq<char>| k != k2@ implies lookup(self.entries@, k) == lookup(before, k) by {
                lemma_lookup_push(before, k2, value, k);
            }
            lemma_lookup_push(before, k2, value, k2@);
        }
    }
}

/// The parameter names "max_hashrate", "device_count" and "work_size" are
/// pairwise different.
pub proof fn lemma_param_keys_distinct()
    ensures
        "max_hashrate"@ != "device_count"@,
        "max_hashrate"@ != "work_size"@,
        "device_count"@ != "work_size"@,
{
    reveal_strlit("max_hashrate");
    reveal_strlit("device_count");
    reveal_strlit("work_size");
    assert("max_hashrate"@[0] != "device_count"@[0]);
    assert("max_hashrate"@.len() != "work_size"@.len());
    assert("device_count"@.len() != "work_size"@.len());
}

/// Configuration of a mining core.
#[derive(Debug, Clone)]
pub struct CoreConfig {
    pub name: String,
    pub custom_params: ConfigParams,
}

impl CoreConfig {
    /// A configuration with an empty name and no parameters.
    pub fn default_config() -> (r: CoreConfig)
        ensures
            r.name@ == Seq::<char>::empty(),
            forall|k: Seq<char>| lookup(r.custom_params@, k) is None,
    {
        CoreConfig { name: String::new(), custom_params: ConfigParams::new() }
    }
}

} // verus!
