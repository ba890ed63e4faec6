//! Test fixtures: parsing them from JSON with their defaults, the record
//! kept in the cache, and the names under which they are fetched and cached.
use vstd::prelude::*;
use crate::json::{member_of, JsonNumber, JsonValue};
use crate::text::str_eq;

verus! {

broadcast use vstd::string::group_string_axioms;

/// Timeout of a fixture that names none, in seconds.
pub const DEFAULT_TIMEOUT: u64 = 30;
/// Gas limit of a fixture that names none.
pub const DEFAULT_GAS_LIMIT: u64 = 1_000_000;

/// One test case of a challenge.
#[derive(Debug)]
pub struct TestFixture {
    pub id: String,
    pub name: String,
    pub description: String,
    pub input: JsonValue,
    pub expected_output: JsonValue,
    pub hidden: bool,
    /// In seconds.
    pub timeout: u64,
    pub gas_limit: u64,
}

/// Why fixture data could not be parsed.
pub enum FixtureError {
    /// The fixture data is not a JSON array.
    NotAnArray,
    /// A fixture has no string `id`.
    MissingId,
}

/// The text of a string member, or `d`.
pub open spec fn text_or(v: Option<JsonValue>, d: Seq<char>) -> Seq<char> {
    match v {
        Some(JsonValue::Text(s)) => s@,
        _ => d,
    }
}

/// A member's value, or null.
pub open spec fn value_or_null(v: Option<JsonValue>) -> JsonValue {
    match v {
        Some(x) => x,
        None => JsonValue::Null,
    }
}

/// The value of a boolean member, or `d`.
pub open spec fn bool_or(v: Option<JsonValue>, d: bool) -> bool {
    match v {
        Some(JsonValue::Bool(b)) => b,
        _ => d,
    }
}

/// The value of a member that is a non-negative integer, or `d`.
pub open spec fn u64_or(v: Option<JsonValue>, d: u64) -> u64 {
    match v {
        Some(JsonValue::Number(JsonNumber::PosInt(n))) => n,
        _ => d,
    }
}

/// `data` has the one required field, a non-empty string `id`.
pub open spec fn has_id(data: JsonValue) -> bool {
    data.spec_get("id"@) matches Some(JsonValue::Text(s)) && s@.len() > 0
}

/// The value of a member that is a positive integer, or `d`.
pub open spec fn positive_or(v: Option<JsonValue>, d: u64) -> u64 {
    match v {
        Some(JsonValue::Number(JsonNumber::PosInt(n))) => if n > 0 { n } else { d },
        _ => d,
    }
}

/// A fixture as the data model has it: a non-empty id and a positive timeout.
pub open spec fn fixture_valid(f: TestFixture) -> bool {
    f.id@.len() > 0 && f.timeout > 0
}

/// `f` is what `data` parses to: its fields where present and of the right
/// kind, the defaults otherwise.
pub open spec fn parses_to(data: JsonValue, f: TestFixture) -> bool {
    &&& data.spec_get("id"@) matches Some(JsonValue::Text(s)) && f.id@ == s@
    &&& f.name@ == text_or(data.spec_get("name"@), "Unnamed test"@)
    &&& f.description@ == text_or(data.spec_get("description"@), ""@)
    &&& f.input == value_or_null(data.spec_get("input"@))
    &&& f.expected_output == value_or_null(data.spec_get("expected_output"@))
    &&& f.hidden == bool_or(data.spec_get("hidden"@), false)
    &&& f.timeout == positive_or(data.spec_get("timeout"@), DEFAULT_TIMEOUT)
    &&& f.gas_limit == u64_or(data.spec_get("gas_limit"@), DEFAULT_GAS_LIMIT)
}

proof fn lemma_member_of_remove(s: Seq<(String, JsonValue)>, k: int, key: Seq<char>)
    requires
        0 <= k < s.len(),
        s[k].0@ != key,
    ensures
        member_of(s.remove(k), key) == member_of(s, key),
    decreases k,
{
    if k == 0 {
        assert(s.remove(0) =~= s.drop_first());
    } else {
        assert(s.remove(k)[0] == s[0]);
        if s[0].0@ != key {
            assert(s.remove(k).drop_first() =~= s.drop_first().remove(k - 1));
            lemma_member_of_remove(s.drop_first(), k - 1, key);
        }
    }
}

/// Takes out the value of the first member named `key`; the members under
/// other names stay as they were.
fn take_member(members: &mut Vec<(String, JsonValue)>, key: &str) -> (r: Option<JsonValue>)
    ensures
        r == member_of(old(members)@, key@),
        forall|k2: Seq<char>| k2 != key@ ==> #[trigger] member_of(final(members)@, k2) == member_of(old(members)@, k2),
{
    let mut i: usize = 0;
    assert(members@.skip(0) =~= members@);
    while i < members.len()
        invariant
            i <= members@.len(),
            members@ == old(members)@,
            forall|j: int| 0 <= j < i ==> members@[j].0@ != key@,
            member_of(members@, key@) == member_of(members@.skip(i as int), key@),
        decreases members.len() - i,
    {
        assert(members@.skip(i as int).drop_first() =~= members@.skip(i + 1));
        assert(members@.skip(i as int)[0] == members@[i as int]);
        if str_eq(members[i].0.as_str(), key) {
            let ghost before = members@;
            let (_, v) = members.remove(i);
            proof {
                assert forall|k2: Seq<char>| k2 != key@ implies #[trigger] member_of(members@, k2) == member_of(before, k2) by {
                    lemma_member_of_remove(before, i as int, k2);
                }
            }
            return Some(v);
        }
        i = i + 1;
    }
    None
}

/// Parses one fixture; fails when it has no non-empty string `id`. A
/// timeout that is not a positive integer takes the default.
pub fn parse_single_fixture(data: JsonValue) -> (r: Result<TestFixture, FixtureError>)
    ensures
        r matches Ok(f) ==> parses_to(data, f),
        r is Err <==> !has_id(data),
        r matches Ok(f) ==> fixture_valid(f),
        r matches Err(e) ==> e is MissingId,
{
    let mut members = match data {
        JsonValue::Object(m) => m,
        _ => {
            return Err(FixtureError::MissingId);
        },
    };
    // The keys differ in length, so taking out the member under one key
    // leaves the members under the others as they were.
    proof {
        reveal_strlit("id");
        reveal_strlit("name");
        reveal_strlit("description");
        reveal_strlit("input");
        reveal_strlit("expected_output");
        reveal_strlit("hidden");
        reveal_strlit("timeout");
        reveal_strlit("gas_limit");
        assert("id"@.len() == 2);
        assert("name"@.len() == 4);
        assert("description"@.len() == 11);
        assert("input"@.len() == 5);
        assert("expected_output"@.len() == 15);
        assert("hidden"@.len() == 6);
        assert("timeout"@.len() == 7);
        assert("gas_limit"@.len() == 9);
    }
    let id_v = take_member(&mut members, "id");
    let name_v = take_member(&mut members, "name");
    let description_v = take_member(&mut members, "description");
    let input_v = take_member(&mut members, "input");
    let expected_v = take_member(&mut members, "expected_output");
    let hidden_v = take_member(&mut members, "hidden");
    let timeout_v = take_member(&mut members, "timeout");
    let gas_v = take_member(&mut members, "gas_limit");
    let id = match id_v {
        Some(JsonValue::Text(s)) => s,
        _ => {
            return Err(FixtureError::MissingId);
        },
    };
    if id.as_str().is_empty() {
        return Err(FixtureError::MissingId);
    }
    let name = match name_v {
        Some(JsonValue::Text(s)) => s,
        _ => String::from_str("Unnamed test"),
    };
    let description = match description_v {
        Some(JsonValue::Text(s)) => s,
        _ => String::from_str(""),
    };
    let input = match input_v {
        Some(v) => v,
        None => JsonValue::Null,
    };
    let expected_output = match expected_v {
        Some(v) => v,
        None => JsonValue::Null,
    };
    let hidden = match hidden_v {
        Some(JsonValue::Bool(b)) => b,
        _ => false,
    };
    let timeout = match timeout_v {
        Some(JsonValue::Number(JsonNumber::PosInt(n))) => if n > 0 { n } else { DEFAULT_TIMEOUT },
        _ => DEFAULT_TIMEOUT,
    };
    let gas_limit = match gas_v {
        Some(JsonValue::Number(JsonNumber::PosInt(n))) => n,
        _ => DEFAULT_GAS_LIMIT,
    };
    Ok(TestFixture { id, name, description, input, expected_output, hidden, timeout, gas_limit })
}

/// Parses an array of fixtures. Fails when the data is not an array, or
/// when some fixture has no string `id`.
pub fn parse_fixtures(data: JsonValue) -> (r: Result<Vec<TestFixture>, FixtureError>)
    ensures
        !(data is Array) ==> r matches Err(FixtureError::NotAnArray),
        data matches JsonValue::Array(items) ==> {
            &&& r is Ok <==> forall|i: int| 0 <= i < items@.len() ==> #[trigger] has_id(items@[i])
            &&& r matches Ok(v) ==> v@.len() == items@.len() && forall|i: int|
                0 <= i < items@.len() ==> #[trigger] parses_to(items@[i], v@[i]) && fixture_valid(v@[i])
            &&& r matches Err(e) ==> e is MissingId
        },
{
    let mut items = match data {
        JsonValue::Array(a) => a,
        _ => {
            return Err(FixtureError::NotAnArray);
        },
    };
    let ghost all = items@;
    let n = items.len();
    let mut fixtures: Vec<TestFixture> = Vec::new();
    let mut i: usize = 0;
    while i < n
        invariant
            data matches JsonValue::Array(it) && it@ == all,
            n == all.len(),
            i <= n,
            items@ == all.skip(i as int),
            fixtures@.len() == i,
            forall|j: int| 0 <= j < i ==> #[trigger] parses_to(all[j], fixtures@[j]) && fixture_valid(fixtures@[j]),
            forall|j: int| 0 <= j < i ==> #[trigger] has_id(all[j]),
        decreases n - i,
    {
        assert(items@[0] == all[i as int]);
        let item = items.remove(0);
        assert(items@ =~= all.skip(i + 1));
        match parse_single_fixture(item) {
            Ok(f) => fixtures.push(f),
            Err(e) => {
                return Err(e);
            },
        }
        i = i + 1;
    }
    Ok(fixtures)
}

/// `j` is the cache record of `f`: every field of `f` under its name.
pub open spec fn is_record_of(j: JsonValue, f: TestFixture) -> bool {
    &&& j.spec_get("id"@) matches Some(JsonValue::Text(s)) && s@ == f.id@
    &&& j.spec_get("name"@) matches Some(JsonValue::Text(s)) && s@ == f.name@
    &&& j.spec_get("description"@) matches Some(JsonValue::Text(s)) && s@ == f.description@
    &&& j.spec_get("input"@) == Some(f.input)
    &&& j.spec_get("expected_output"@) == Some(f.expected_output)
    &&& j.spec_get("hidden"@) == Some(JsonValue::Bool(f.hidden))
    &&& j.spec_get("timeout"@) == Some(JsonValue::Number(JsonNumber::PosInt(f.timeout)))
    &&& j.spec_get("gas_limit"@) == Some(JsonValue::Number(JsonNumber::PosInt(f.gas_limit)))
}

/// The cache record of a fixture.
pub fn fixture_to_json(f: TestFixture) -> (j: JsonValue)
    ensures
        is_record_of(j, f),
{
    let ghost g = f;
    let mut m: Vec<(String, JsonValue)> = Vec::new();
    m.push((String::from_str("id"), JsonValue::Text(f.id)));
    m.push((String::from_str("name"), JsonValue::Text(f.name)));
    m.push((String::from_str("description"), JsonValue::Text(f.description)));
    m.push((String::from_str("input"), f.input));
    m.push((String::from_str("expected_output"), f.expected_output));
    m.push((String::from_str("hidden"), JsonValue::Bool(f.hidden)));
    m.push((String::from_str("timeout"), JsonValue::Number(JsonNumber::PosInt(f.timeout))));
    m.push((String::from_str("gas_limit"), JsonValue::Number(JsonNumber::PosInt(f.gas_limit))));
    proof {
        reveal_strlit("id");
        reveal_strlit("name");
        reveal_strlit("description");
        reveal_strlit("input");
        reveal_strlit("expected_output");
        reveal_strlit("hidden");
        reveal_strlit("timeout");
        reveal_strlit("gas_limit");
        assert("id"@.len() == 2);
        assert("name"@.len() == 4);
        assert("description"@.len() == 11);
        assert("input"@.len() == 5);
        assert("expected_output"@.len() == 15);
        assert("hidden"@.len() == 6);
        assert("timeout"@.len() == 7);
        assert("gas_limit"@.len() == 9);
    }
    let j = JsonValue::Object(m);
    assert(is_record_of(j, g)) by {
        reveal_with_fuel(member_of, 9);
    }
    j
}

/// Parsing the cache record of a fixture gives back every field of it.
pub proof fn lemma_cache_round_trip(f: TestFixture, j: JsonValue, g: TestFixture)
    requires
        fixture_valid(f),
        is_record_of(j, f),
        parses_to(j, g),
    ensures
        has_id(j),
        g.id@ == f.id@,
        g.name@ == f.name@,
        g.description@ == f.description@,
        g.input == f.input,
        g.expected_output == f.expected_output,
        g.hidden == f.hidden,
        g.timeout == f.timeout,
        g.gas_limit == f.gas_limit,
{
}

/// The address of a challenge's public fixtures.
pub fn fixtures_url(base: &str, challenge_id: &str) -> (u: String)
    ensures
        u@ == base@ + "/challenges/"@ + challenge_id@ + "/fixtures"@,
{
    let mut u = String::from_str(base);
    u.append("/challenges/");
    u.append(challenge_id);
    u.append("/fixtures");
    u
}

/// The address of a challenge's hidden fixtures.
pub fn hidden_tests_url(base: &str, challenge_id: &str) -> (u: String)
    ensures
        u@ == base@ + "/challenges/"@ + challenge_id@ + "/hidden-tests"@,
{
    let mut u = String::from_str(base);
    u.append("/challenges/");
    u.append(challenge_id);
    u.append("/hidden-tests");
    u
}

/// The cache key of a challenge's public fixtures.
pub fn cache_key(challenge_id: &str) -> (k: String)
    ensures
        k@ == "fixtures_"@ + challenge_id@,
{
    let mut k = String::from_str("fixtures_");
    k.append(challenge_id);
    k
}

/// The cache file of a challenge's public fixtures.
pub fn cache_file_name(challenge_id: &str) -> (k: String)
    ensures
        k@ == "fixtures_"@ + challenge_id@ + ".json"@,
{
    let mut k = cache_key(challenge_id);
    k.append(".json");
    k
}

} // verus!
