use vstd::prelude::*;
use crate::reader::{
    be_u32_at, fits, latin1, le_u16_at, read_float, read_string, read_u16_le, terminator_from,
    truncated,
};
use crate::types::{PixelBenderError, PixelBenderType, PixelBenderTypeOpcode, ValueModel};

verus! {

/// `n` big-endian float words read one after another from `p`, and the position after them.
pub open spec fn float_words(d: Seq<u8>, p: int, n: nat) -> Result<(Seq<u32>, int), PixelBenderError>
    decreases n,
{
    if n == 0 {
        Ok((seq![], p))
    } else if !fits(d, p, 4) {
        Err(truncated(p))
    } else {
        match float_words(d, p + 4, (n - 1) as nat) {
            Ok((s, q)) => Ok((seq![be_u32_at(d, p)] + s, q)),
            Err(e) => Err(e),
        }
    }
}

/// `n` little-endian signed 16-bit integers read one after another from `p`, and the position
/// after them.
pub open spec fn int_words(d: Seq<u8>, p: int, n: nat) -> Result<(Seq<i16>, int), PixelBenderError>
    decreases n,
{
    if n == 0 {
        Ok((seq![], p))
    } else if !fits(d, p, 2) {
        Err(truncated(p))
    } else {
        match int_words(d, p + 2, (n - 1) as nat) {
            Ok((s, q)) => Ok((seq![#[verifier::truncate] (le_u16_at(d, p) as i16)] + s, q)),
            Err(e) => Err(e),
        }
    }
}

/// The zero-terminated string at `p`, and the position after its terminator.
pub open spec fn string_at(d: Seq<u8>, p: int) -> Result<(Seq<char>, int), PixelBenderError> {
    match terminator_from(d, p) {
        Some(z) => Ok((latin1(d.subrange(p, z)), z + 1)),
        None => Err(truncated(d.len() as int)),
    }
}

/// The literal of type `t` at `p`, and the position after it.
pub open spec fn value_at(d: Seq<u8>, p: int, t: PixelBenderTypeOpcode) -> Result<
    (ValueModel, int),
    PixelBenderError,
> {
    if t == PixelBenderTypeOpcode::TString {
        match string_at(d, p) {
            Ok((s, q)) => Ok((ValueModel::Text(s), q)),
            Err(e) => Err(e),
        }
    } else if t.int_count() > 0 {
        match int_words(d, p, t.int_count()) {
            Ok((s, q)) => Ok((ValueModel::Ints(t, s), q)),
            Err(e) => Err(e),
        }
    } else {
        match float_words(d, p, t.float_count()) {
            Ok((s, q)) => Ok((ValueModel::Floats(t, s), q)),
            Err(e) => Err(e),
        }
    }
}

fn read_floats(data: &[u8], pos: &mut usize, n: usize) -> (r: Result<Vec<u32>, PixelBenderError>)
    requires
        *old(pos) <= data@.len(),
    ensures
        *old(pos) <= *final(pos) <= data@.len(),
        r matches Ok(v) ==> v@.len() == n,
        match float_words(data@, *old(pos) as int, n as nat) {
            Ok((s, q)) => match r {
                Ok(v) => v@ == s && *final(pos) == q,
                Err(_) => false,
            },
            Err(e) => r == Err::<Vec<u32>, PixelBenderError>(e),
        },
{
    let ghost d = data@;
    let ghost start = *pos as int;
    let mut v: Vec<u32> = Vec::new();
    let mut k: usize = 0;
    while k < n
        invariant
            k <= n,
            v@.len() == k,
            start <= *pos <= d.len(),
            d == data@,
            start == *old(pos) as int,
            float_words(d, start, n as nat) == match float_words(d, *pos as int, (n - k) as nat) {
                Ok((s, q)) => Ok((v@ + s, q)),
                Err(e) => Err(e),
            },
        decreases n - k,
    {
        let ghost p = *pos as int;
        let ghost rem = (n - k) as nat;
        match read_float(data, pos) {
            Ok(w) => {
                proof {
                    match float_words(d, p + 4, (rem - 1) as nat) {
                        Ok((s, q)) => {
                            assert(v@ + (seq![w] + s) =~= v@.push(w) + s);
                        },
                        Err(_) => {},
                    }
                }
                v.push(w);
            },
            Err(e) => {
                return Err(e);
            },
        }
        k = k + 1;
    }
    assert(v@ + seq![] =~= v@);
    Ok(v)
}

fn read_ints(data: &[u8], pos: &mut usize, n: usize) -> (r: Result<Vec<i16>, PixelBenderError>)
    requires
        *old(pos) <= data@.len(),
    ensures
        *old(pos) <= *final(pos) <= data@.len(),
        r matches Ok(v) ==> v@.len() == n,
        match int_words(data@, *old(pos) as int, n as nat) {
            Ok((s, q)) => match r {
                Ok(v) => v@ == s && *final(pos) == q,
                Err(_) => false,
            },
            Err(e) => r == Err::<Vec<i16>, PixelBenderError>(e),
        },
{
    let ghost d = data@;
    let ghost start = *pos as int;
    let mut v: Vec<i16> = Vec::new();
    let mut k: usize = 0;
    while k < n
        invariant
            k <= n,
            v@.len() == k,
            start <= *pos <= d.len(),
            d == data@,
            start == *old(pos) as int,
            int_words(d, start, n as nat) == match int_words(d, *pos as int, (n - k) as nat) {
                Ok((s, q)) => Ok((v@ + s, q)),
                Err(e) => Err(e),
            },
        decreases n - k,
    {
        let ghost p = *pos as int;
        let ghost rem = (n - k) as nat;
        match read_u16_le(data, pos) {
            Ok(w) => {
                let x = #[verifier::truncate] (w as i16);
                proof {
                    match int_words(d, p + 2, (rem - 1) as nat) {
                        Ok((s, q)) => {
                            assert(v@ + (seq![x] + s) =~= v@.push(x) + s);
                        },
                        Err(_) => {},
                    }
                }
                v.push(x);
            },
            Err(e) => {
                return Err(e);
            },
        }
        k = k + 1;
    }
    assert(v@ + seq![] =~= v@);
    Ok(v)
}

fn to_array<const N: usize>(v: &Vec<u32>) -> (r: [u32; N])
    requires
        v@.len() == N,
    ensures
        r@ == v@,
{
    let mut a = [0u32; N];
    let mut i: usize = 0;
    while i < N
        invariant
            i <= N,
            v@.len() == N,
            forall|j: int| 0 <= j < i ==> a@[j] == v@[j],
        decreases N - i,
    {
        a[i] = v[i];
        i = i + 1;
    }
    assert(a@ =~= v@);
    a
}

/// Reads a literal of the given type: its floats (big-endian), its 16-bit integers
/// (little-endian) or its zero-terminated string.
pub fn read_value(data: &[u8], pos: &mut usize, opcode: PixelBenderTypeOpcode) -> (r: Result<
    PixelBenderType,
    PixelBenderError,
>)
    requires
        *old(pos) <= data@.len(),
    ensures
        *old(pos) <= *final(pos) <= data@.len(),
        match value_at(data@, *old(pos) as int, opcode) {
            Ok((x, q)) => match r {
                Ok(v) => v@ == x && *final(pos) == q,
                Err(_) => false,
            },
            Err(e) => r == Err::<PixelBenderType, PixelBenderError>(e),
        },
{
    match opcode {
        PixelBenderTypeOpcode::TString => {
            let s = read_string(data, pos)?;
            Ok(PixelBenderType::TString(s))
        },
        PixelBenderTypeOpcode::TInt => {
            let v = read_ints(data, pos, 1)?;
            assert(v@ =~= seq![v[0]]);
            Ok(PixelBenderType::TInt(v[0]))
        },
        PixelBenderTypeOpcode::TInt2 => {
            let v = read_ints(data, pos, 2)?;
            assert(v@ =~= seq![v[0], v[1]]);
            Ok(PixelBenderType::TInt2(v[0], v[1]))
        },
        PixelBenderTypeOpcode::TInt3 => {
            let v = read_ints(data, pos, 3)?;
            assert(v@ =~= seq![v[0], v[1], v[2]]);
            Ok(PixelBenderType::TInt3(v[0], v[1], v[2]))
        },
        PixelBenderTypeOpcode::TInt4 => {
            let v = read_ints(data, pos, 4)?;
            assert(v@ =~= seq![v[0], v[1], v[2], v[3]]);
            Ok(PixelBenderType::TInt4(v[0], v[1], v[2], v[3]))
        },
        PixelBenderTypeOpcode::TFloat => {
            let v = read_floats(data, pos, 1)?;
            assert(v@ =~= seq![v[0]]);
            Ok(PixelBenderType::TFloat(v[0]))
        },
        PixelBenderTypeOpcode::TFloat2 => {
            let v = read_floats(data, pos, 2)?;
            assert(v@ =~= seq![v[0], v[1]]);
            Ok(PixelBenderType::TFloat2(v[0], v[1]))
        },
        PixelBenderTypeOpcode::TFloat3 => {
            let v = read_floats(data, pos, 3)?;
            assert(v@ =~= seq![v[0], v[1], v[2]]);
            Ok(PixelBenderType::TFloat3(v[0], v[1], v[2]))
        },
        PixelBenderTypeOpcode::TFloat4 => {
            let v = read_floats(data, pos, 4)?;
            assert(v@ =~= seq![v[0], v[1], v[2], v[3]]);
            Ok(PixelBenderType::TFloat4(v[0], v[1], v[2], v[3]))
        },
        PixelBenderTypeOpcode::TFloat2x2 => {
            let v = read_floats(data, pos, 4)?;
            Ok(PixelBenderType::TFloat2x2(to_array::<4>(&v)))
        },
        PixelBenderTypeOpcode::TFloat3x3 => {
            let v = read_floats(data, pos, 9)?;
            Ok(PixelBenderType::TFloat3x3(to_array::<9>(&v)))
        },
        PixelBenderTypeOpcode::TFloat4x4 => {
            let v = read_floats(data, pos, 16)?;
            Ok(PixelBenderType::TFloat4x4(to_array::<16>(&v)))
        },
    }
}

} // verus!
