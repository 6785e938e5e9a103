//! RESP (Redis Serialization Protocol) values, and random test payloads
//! made of them.
use vstd::prelude::*;
use rand::Rng;
use vstd::string::StringSliceAdditionalSpecFns;

verus! {

/// A RESP value.
pub enum Value {
    /// The null bulk reply.
    Null,
    /// The null array reply.
    NullArray,
    /// A simple string.
    String(String),
    /// An error.
    Error(String),
    /// An integer.
    Integer(i64),
    /// A bulk string.
    Bulk(String),
    /// A bulk string of raw bytes.
    BufBulk(Vec<u8>),
    /// An array of values.
    Array(Vec<Value>),
}

/// The characters of which random payload strings are made.
pub const CHARSET: &'static str = "ABCDEFGHIJKLMNOPQRSTUVWXYZabcdefghijklmnopqrstuvwxyz0123456789)(*&^%$#@!~";

/// The characters of which random payload strings are made, as a sequence.
pub open spec fn charset() -> Seq<char> {
    CHARSET@
}

/// The string whose characters are those of the charset at `indices`.
pub open spec fn chars_at(indices: Seq<usize>) -> Seq<char> {
    indices.map_values(|i: usize| charset()[i as int])
}

/// Every character of `s` is one of the charset.
pub open spec fn from_charset(s: Seq<char>) -> bool {
    forall|i: int| 0 <= i < s.len() ==> charset().contains(#[trigger] s[i])
}

/// The charset holds 73 characters, all ASCII.
pub proof fn charset_len()
    ensures
        charset().len() == 73,
        CHARSET.is_ascii(),
        CHARSET.spec_bytes().len() == 73,
{
    reveal_strlit("ABCDEFGHIJKLMNOPQRSTUVWXYZabcdefghijklmnopqrstuvwxyz0123456789)(*&^%$#@!~");
    assert(CHARSET.is_ascii());
    vstd::string::is_ascii_spec_bytes(CHARSET);
}

/// The charset's characters are pairwise distinct.
pub proof fn charset_distinct()
    ensures
        forall|i: int, j: int|
            0 <= i < charset().len() && 0 <= j < charset().len() && i != j ==> charset()[i]
                != charset()[j],
{
    reveal_strlit("ABCDEFGHIJKLMNOPQRSTUVWXYZabcdefghijklmnopqrstuvwxyz0123456789)(*&^%$#@!~");
}

/// A string of charset characters is made character by character from its
/// indices, and it determines them: two index sequences give the same string
/// only if they are equal.
pub proof fn chars_at_faithful(a: Seq<usize>, b: Seq<usize>)
    requires
        forall|i: int| 0 <= i < a.len() ==> #[trigger] a[i] < 73,
        forall|i: int| 0 <= i < b.len() ==> #[trigger] b[i] < 73,
    ensures
        chars_at(a).len() == a.len(),
        forall|i: int| 0 <= i < a.len() ==> #[trigger] chars_at(a)[i] == charset()[a[i] as int],
        chars_at(a) == chars_at(b) ==> a == b,
{
    charset_len();
    charset_distinct();
    if chars_at(a) == chars_at(b) {
        assert(a.len() == chars_at(a).len() && b.len() == chars_at(b).len());
        assert forall|i: int| 0 <= i < a.len() implies a[i] == b[i] by {
            assert(chars_at(a)[i] == charset()[a[i] as int]);
            assert(chars_at(b)[i] == charset()[b[i] as int]);
        }
        assert(a =~= b);
    }
}

/// The thread-local random number generator of `rand`, carried through opaquely.
#[verifier::external_type_specification]
#[verifier::external_body]
pub struct ExThreadRng(rand::rngs::ThreadRng);

/// Calls `rand::thread_rng`, which hands out the calling thread's generator.
/// Nothing is claimed of it.
#[verifier::external_body]
fn thread_rng() -> rand::rngs::ThreadRng {
    rand::thread_rng()
}

/// Calls `Rng::gen_range(rng, 0, high)` of `rand` 0.7, which draws a
/// number from `[0, high)`. The contract claims only that the number lies in
/// that range; which one comes out rests on chance. `gen_range` panics when
/// the range is empty, hence `0 < high`.
#[verifier::external_body]
fn gen_index(rng: &mut rand::rngs::ThreadRng, high: usize) -> (r: usize)
    requires
        0 < high,
    ensures
        r < high,
{
    rng.gen_range(0, high)
}

/// Calls `String::push` of std, which appends one character.
#[verifier::external_body]
fn push_char(s: &mut String, c: char)
    ensures
        final(s)@ == old(s)@.push(c),
{
    s.push(c)
}

/// The string made of the charset's characters at `indices`, in order.
pub fn string_from_indices(indices: &Vec<usize>) -> (s: String)
    requires
        forall|i: int| 0 <= i < indices@.len() ==> #[trigger] indices@[i] < 73,
    ensures
        s@ == chars_at(indices@),
{
    proof {
        charset_len();
    }
    let mut s = String::new();
    let n: usize = indices.len();
    for j in 0..n
        invariant
            n == indices@.len(),
            charset().len() == 73,
            forall|i: int| 0 <= i < indices@.len() ==> #[trigger] indices@[i] < 73,
            s@ == chars_at(indices@.take(j as int)),
    {
        let c = CHARSET.get_char(indices[j]);
        push_char(&mut s, c);
        assert(indices@.take(j + 1) == indices@.take(j as int).push(indices@[j as int]));
        assert(s@ == chars_at(indices@.take(j + 1)));
    }
    assert(indices@.take(n as int) == indices@);
    s
}

/// A random string of `len` characters, each drawn from the charset.
pub fn get_str(len: usize) -> (s: String)
    ensures
        s@.len() == len,
        from_charset(s@),
{
    proof {
        charset_len();
    }
    let mut rng = thread_rng();
    let mut indices: Vec<usize> = Vec::new();
    let high: usize = CHARSET.len();
    for j in 0..len
        invariant
            high == 73,
            indices@.len() == j,
            forall|i: int| 0 <= i < indices@.len() ==> #[trigger] indices@[i] < 73,
    {
        let idx: usize = gen_index(&mut rng, high);
        indices.push(idx);
    }
    let s = string_from_indices(&indices);
    assert forall|i: int| 0 <= i < s@.len() implies charset().contains(#[trigger] s@[i]) by {
        assert(charset()[indices@[i] as int] == s@[i]);
    }
    s
}

/// The payload used to exercise the data path: an array holding one
/// random simple string of `size` characters.
pub fn prepare_values(size: usize) -> (v: Value)
    ensures
        v matches Value::Array(a) && a@.len() == 1 && (a@[0] matches Value::String(s) && s@.len()
            == size && from_charset(s@)),
{
    let mut a: Vec<Value> = Vec::new();
    a.push(Value::String(get_str(size)));
    Value::Array(a)
}

} // verus!
