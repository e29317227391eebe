//! Host-keyboard translation: maps the keys a host reports into the
//! (row, column) cells of the machine's 8 by 8 key matrix. A shifted host
//! key that has its own mapping wins over everything else; otherwise each
//! pressed key expands through the direct map, one key possibly asserting
//! several cells.

use vstd::prelude::*;

verus! {

/// The host keys the matrix knows. `Other` stands for any unmapped host
/// key; like the original map it lands in the unused corner of the matrix.
#[derive(Clone, Copy, PartialEq, Eq, Structural, Debug)]
pub enum HostKey {
    A,
    B,
    C,
    D,
    E,
    F,
    G,
    H,
    I,
    J,
    K,
    L,
    M,
    N,
    O,
    P,
    Q,
    R,
    S,
    T,
    U,
    V,
    W,
    X,
    Y,
    Z,
    Key0,
    Key1,
    Key2,
    Key3,
    Key4,
    Key5,
    Key6,
    Key7,
    Key8,
    Key9,
    Up,
    Down,
    Left,
    Right,
    Space,
    Enter,
    Home,
    Escape,
    LeftShift,
    RightShift,
    Backspace,
    Apostrophe,
    Equal,
    Semicolon,
    Comma,
    Minus,
    Period,
    Slash,
    Other,
}

/// The matrix cells a host key asserts on its own.
pub open spec fn direct_coords_spec(k: HostKey) -> Seq<(u8, u8)> {
    match k {
        HostKey::A => seq![(0u8, 1u8)],
        HostKey::B => seq![(0u8, 2u8)],
        HostKey::C => seq![(0u8, 3u8)],
        HostKey::D => seq![(0u8, 4u8)],
        HostKey::E => seq![(0u8, 5u8)],
        HostKey::F => seq![(0u8, 6u8)],
        HostKey::G => seq![(0u8, 7u8)],
        HostKey::H => seq![(1u8, 0u8)],
        HostKey::I => seq![(1u8, 1u8)],
        HostKey::J => seq![(1u8, 2u8)],
        HostKey::K => seq![(1u8, 3u8)],
        HostKey::L => seq![(1u8, 4u8)],
        HostKey::M => seq![(1u8, 5u8)],
        HostKey::N => seq![(1u8, 6u8)],
        HostKey::O => seq![(1u8, 7u8)],
        HostKey::P => seq![(2u8, 0u8)],
        HostKey::Q => seq![(2u8, 1u8)],
        HostKey::R => seq![(2u8, 2u8)],
        HostKey::S => seq![(2u8, 3u8)],
        HostKey::T => seq![(2u8, 4u8)],
        HostKey::U => seq![(2u8, 5u8)],
        HostKey::V => seq![(2u8, 6u8)],
        HostKey::W => seq![(2u8, 7u8)],
        HostKey::X => seq![(3u8, 0u8)],
        HostKey::Y => seq![(3u8, 1u8)],
        HostKey::Z => seq![(3u8, 2u8)],
        HostKey::Up => seq![(3u8, 3u8)],
        HostKey::Down => seq![(3u8, 4u8)],
        HostKey::Left => seq![(3u8, 5u8)],
        HostKey::Right => seq![(3u8, 6u8)],
        HostKey::Space => seq![(3u8, 7u8)],
        HostKey::Key0 => seq![(4u8, 0u8)],
        HostKey::Key1 => seq![(4u8, 1u8)],
        HostKey::Key2 => seq![(4u8, 2u8)],
        HostKey::Key3 => seq![(4u8, 3u8)],
        HostKey::Key4 => seq![(4u8, 4u8)],
        HostKey::Key5 => seq![(4u8, 5u8)],
        HostKey::Key6 => seq![(4u8, 6u8)],
        HostKey::Key7 => seq![(4u8, 7u8)],
        HostKey::Key8 => seq![(5u8, 0u8)],
        HostKey::Key9 => seq![(5u8, 1u8)],
        HostKey::Semicolon => seq![(5u8, 3u8)],
        HostKey::Comma => seq![(5u8, 4u8)],
        HostKey::Minus => seq![(5u8, 5u8)],
        HostKey::Period => seq![(5u8, 6u8)],
        HostKey::Slash => seq![(5u8, 7u8)],
        HostKey::Enter => seq![(6u8, 0u8)],
        HostKey::Home => seq![(6u8, 1u8)],
        HostKey::Escape => seq![(6u8, 2u8)],
        HostKey::RightShift => seq![(6u8, 7u8)],
        HostKey::LeftShift => seq![(6u8, 7u8)],
        HostKey::Backspace => seq![(3u8, 5u8)],
        HostKey::Apostrophe => seq![(6u8, 7u8), (4u8, 7u8)],
        HostKey::Equal => seq![(6u8, 7u8), (5u8, 5u8)],
        HostKey::Other => seq![(7u8, 7u8)],
    }
}

/// The cells a host key asserts when pressed together with shift, where
/// the machine's layout disagrees with the host's.
pub open spec fn shift_coords_spec(k: HostKey) -> Option<Seq<(u8, u8)>> {
    match k {
        HostKey::Key2 => Some(seq![(0u8, 0u8)]),
        HostKey::Semicolon => Some(seq![(5u8, 2u8)]),
        HostKey::Apostrophe => Some(seq![(6u8, 7u8), (4u8, 2u8)]),
        HostKey::Key7 => Some(seq![(6u8, 7u8), (4u8, 6u8)]),
        HostKey::Key8 => Some(seq![(6u8, 7u8), (5u8, 2u8)]),
        HostKey::Key9 => Some(seq![(6u8, 7u8), (5u8, 0u8)]),
        HostKey::Key0 => Some(seq![(6u8, 7u8), (5u8, 1u8)]),
        HostKey::Equal => Some(seq![(6u8, 7u8), (5u8, 3u8)]),
        _ => None,
    }
}

/// Whether a shift key is among the pressed keys.
pub open spec fn shift_held_spec(keys: Seq<HostKey>) -> bool {
    exists|i: int|
        0 <= i < keys.len() && (#[trigger] keys[i] == HostKey::LeftShift || keys[i]
            == HostKey::RightShift)
}

/// The cells of the first pressed key that carries a shift mapping, if any.
pub open spec fn first_shift_coords_spec(keys: Seq<HostKey>, j: int) -> Option<Seq<(u8, u8)>>
    decreases keys.len() - j,
{
    if j < 0 || j >= keys.len() {
        None
    } else {
        match shift_coords_spec(keys[j]) {
            Some(v) => Some(v),
            None => first_shift_coords_spec(keys, j + 1),
        }
    }
}

/// The concatenation of the direct mappings of the first `n` pressed keys.
pub open spec fn direct_concat_spec(keys: Seq<HostKey>, n: int) -> Seq<(u8, u8)>
    decreases n,
{
    if n <= 0 {
        Seq::empty()
    } else {
        direct_concat_spec(keys, n - 1) + direct_coords_spec(keys[n - 1])
    }
}

/// The cells the whole set of pressed keys asserts: with shift held and
/// some key shift-mapped, only the first such mapping; else every key's
/// direct mapping.
pub open spec fn keys_coords_spec(keys: Seq<HostKey>) -> Seq<(u8, u8)> {
    if shift_held_spec(keys) && first_shift_coords_spec(keys, 0) is Some {
        first_shift_coords_spec(keys, 0).unwrap()
    } else {
        direct_concat_spec(keys, keys.len() as int)
    }
}

/// The direct matrix cells of one host key.
pub fn key_coords(k: HostKey) -> (v: Vec<(u8, u8)>)
    ensures
        v@ == direct_coords_spec(k),
{
    let v: Vec<(u8, u8)> = match k {
        HostKey::A => vec![(0, 1)],
        HostKey::B => vec![(0, 2)],
        HostKey::C => vec![(0, 3)],
        HostKey::D => vec![(0, 4)],
        HostKey::E => vec![(0, 5)],
        HostKey::F => vec![(0, 6)],
        HostKey::G => vec![(0, 7)],
        HostKey::H => vec![(1, 0)],
        HostKey::I => vec![(1, 1)],
        HostKey::J => vec![(1, 2)],
        HostKey::K => vec![(1, 3)],
        HostKey::L => vec![(1, 4)],
        HostKey::M => vec![(1, 5)],
        HostKey::N => vec![(1, 6)],
        HostKey::O => vec![(1, 7)],
        HostKey::P => vec![(2, 0)],
        HostKey::Q => vec![(2, 1)],
        HostKey::R => vec![(2, 2)],
        HostKey::S => vec![(2, 3)],
        HostKey::T => vec![(2, 4)],
        HostKey::U => vec![(2, 5)],
        HostKey::V => vec![(2, 6)],
        HostKey::W => vec![(2, 7)],
        HostKey::X => vec![(3, 0)],
        HostKey::Y => vec![(3, 1)],
        HostKey::Z => vec![(3, 2)],
        HostKey::Up => vec![(3, 3)],
        HostKey::Down => vec![(3, 4)],
        HostKey::Left => vec![(3, 5)],
        HostKey::Right => vec![(3, 6)],
        HostKey::Space => vec![(3, 7)],
        HostKey::Key0 => vec![(4, 0)],
        HostKey::Key1 => vec![(4, 1)],
        HostKey::Key2 => vec![(4, 2)],
        HostKey::Key3 => vec![(4, 3)],
        HostKey::Key4 => vec![(4, 4)],
        HostKey::Key5 => vec![(4, 5)],
        HostKey::Key6 => vec![(4, 6)],
        HostKey::Key7 => vec![(4, 7)],
        HostKey::Key8 => vec![(5, 0)],
        HostKey::Key9 => vec![(5, 1)],
        HostKey::Semicolon => vec![(5, 3)],
        HostKey::Comma => vec![(5, 4)],
        HostKey::Minus => vec![(5, 5)],
        HostKey::Period => vec![(5, 6)],
        HostKey::Slash => vec![(5, 7)],
        HostKey::Enter => vec![(6, 0)],
        HostKey::Home => vec![(6, 1)],
        HostKey::Escape => vec![(6, 2)],
        HostKey::RightShift => vec![(6, 7)],
        HostKey::LeftShift => vec![(6, 7)],
        HostKey::Backspace => vec![(3, 5)],
        HostKey::Apostrophe => vec![(6, 7), (4, 7)],
        HostKey::Equal => vec![(6, 7), (5, 5)],
        HostKey::Other => vec![(7, 7)],
    };
    proof {
        assert(v@ =~= direct_coords_spec(k));
    }
    v
}

/// The shift-combination cells of one host key, if the machine's layout
/// gives it one.
pub fn shift_key_coords(k: HostKey) -> (r: Option<Vec<(u8, u8)>>)
    ensures
        r is Some <==> shift_coords_spec(k) is Some,
        r matches Some(v) ==> v@ == shift_coords_spec(k).unwrap(),
{
    let r: Option<Vec<(u8, u8)>> = match k {
        HostKey::Key2 => Some(vec![(0, 0)]),
        HostKey::Semicolon => Some(vec![(5, 2)]),
        HostKey::Apostrophe => Some(vec![(6, 7), (4, 2)]),
        HostKey::Key7 => Some(vec![(6, 7), (4, 6)]),
        HostKey::Key8 => Some(vec![(6, 7), (5, 2)]),
        HostKey::Key9 => Some(vec![(6, 7), (5, 0)]),
        HostKey::Key0 => Some(vec![(6, 7), (5, 1)]),
        HostKey::Equal => Some(vec![(6, 7), (5, 3)]),
        _ => None,
    };
    proof {
        if r is Some {
            assert(r.unwrap()@ =~= shift_coords_spec(k).unwrap());
        }
    }
    r
}

/// Translates the set of pressed host keys into matrix cells, the
/// first-shift-mapping rule included. Every cell lies inside the 8 by 8
/// matrix, so the result feeds `Pia0::set_keys_from_coords` directly.
pub fn keys_to_coords(keys: &Vec<HostKey>) -> (v: Vec<(u8, u8)>)
    ensures
        v@ == keys_coords_spec(keys@),
        forall|i: int| 0 <= i < v@.len() ==> (#[trigger] v@[i]).0 < 8 && v@[i].1 < 8,
{
    let ghost ks = keys@;
    let mut shift = false;
    let mut j: usize = 0;
    while j < keys.len()
        invariant
            ks == keys@,
            0 <= j <= ks.len(),
            shift == exists|i: int|
                0 <= i < j && (#[trigger] ks[i] == HostKey::LeftShift || ks[i]
                    == HostKey::RightShift),
        decreases keys@.len() - j,
    {
        let k = keys[j];
        if matches!(k, HostKey::LeftShift) || matches!(k, HostKey::RightShift) {
            shift = true;
        }
        j = j + 1;
    }
    if shift {
        let mut j: usize = 0;
        while j < keys.len()
            invariant
                ks == keys@,
                0 <= j <= ks.len(),
                shift_held_spec(ks),
                first_shift_coords_spec(ks, 0) == first_shift_coords_spec(ks, j as int),
            decreases keys@.len() - j,
        {
            if let Some(v) = shift_key_coords(keys[j]) {
                proof {
                    lemma_coords_in_matrix(ks[j as int]);
                }
                return v;
            }
            j = j + 1;
        }
    }
    let mut out: Vec<(u8, u8)> = Vec::new();
    let mut j: usize = 0;
    while j < keys.len()
        invariant
            ks == keys@,
            0 <= j <= ks.len(),
            out@ == direct_concat_spec(ks, j as int),
            forall|i: int| 0 <= i < out@.len() ==> (#[trigger] out@[i]).0 < 8 && out@[i].1 < 8,
        decreases keys@.len() - j,
    {
        let mut cs = key_coords(keys[j]);
        proof {
            lemma_coords_in_matrix(ks[j as int]);
        }
        let mut t: usize = 0;
        let n = cs.len();
        while t < n
            invariant
                0 <= t <= n,
                n == cs@.len(),
                cs@ == direct_coords_spec(ks[j as int]),
                j < ks.len(),
                out@ == direct_concat_spec(ks, j as int) + cs@.take(t as int),
                forall|i: int| 0 <= i < out@.len() ==> (#[trigger] out@[i]).0 < 8 && out@[i].1 < 8,
                forall|i: int|
                    0 <= i < cs@.len() ==> (#[trigger] cs@[i]).0 < 8 && cs@[i].1 < 8,
            decreases n - t,
        {
            let c = cs[t];
            out.push(c);
            proof {
                assert(out@ =~= direct_concat_spec(ks, j as int) + cs@.take(t as int + 1));
            }
            t = t + 1;
        }
        proof {
            assert(cs@.take(cs@.len() as int) =~= cs@);
            assert(out@ =~= direct_concat_spec(ks, j as int + 1));
        }
        j = j + 1;
    }
    out
}

/// Every mapped cell lies inside the 8 by 8 matrix.
pub proof fn lemma_coords_in_matrix(k: HostKey)
    ensures
        forall|i: int|
            0 <= i < direct_coords_spec(k).len() ==> (#[trigger] direct_coords_spec(k)[i]).0 < 8
                && direct_coords_spec(k)[i].1 < 8,
        shift_coords_spec(k) matches Some(v) ==> forall|i: int|
            0 <= i < v.len() ==> (#[trigger] v[i]).0 < 8 && v[i].1 < 8,
{
}

} // verus!
