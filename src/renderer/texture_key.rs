//! Keys under which the renderer files its textures: a file's path, or for a flat colour a
//! key made from its channels, and the lookup of a key among those already loaded.
use vstd::prelude::*;
use vstd::string::StringExecFns;

verus! {

/// The character of decimal digit `d`.
pub open spec fn digit(d: nat) -> char {
    if d == 0 {
        '0'
    } else if d == 1 {
        '1'
    } else if d == 2 {
        '2'
    } else if d == 3 {
        '3'
    } else if d == 4 {
        '4'
    } else if d == 5 {
        '5'
    } else if d == 6 {
        '6'
    } else if d == 7 {
        '7'
    } else if d == 8 {
        '8'
    } else {
        '9'
    }
}

/// The decimal digits of `n`, without leading zeros.
pub open spec fn decimal(n: nat) -> Seq<char>
    decreases n,
{
    if n < 10 {
        seq![digit(n)]
    } else {
        decimal(n / 10).push(digit(n % 10))
    }
}

/// The key of a flat colour whose channels, scaled by 1024 and rounded, are `r`, `g` and `b`.
pub open spec fn colour_key_of(r: u16, g: u16, b: u16) -> Seq<char> {
    "colour/"@ + decimal(r as nat) + ","@ + decimal(g as nat) + ","@ + decimal(b as nat)
}

fn digit_str(d: u16) -> (s: &'static str)
    requires
        d < 10,
    ensures
        s@ == seq![digit(d as nat)],
{
    proof {
        reveal_strlit("0");
        reveal_strlit("1");
        reveal_strlit("2");
        reveal_strlit("3");
        reveal_strlit("4");
        reveal_strlit("5");
        reveal_strlit("6");
        reveal_strlit("7");
        reveal_strlit("8");
        reveal_strlit("9");
    }
    match d {
        0 => "0",
        1 => "1",
        2 => "2",
        3 => "3",
        4 => "4",
        5 => "5",
        6 => "6",
        7 => "7",
        8 => "8",
        _ => "9",
    }
}

/// Appends the decimal digits of `n` to `s`.
fn push_decimal(s: &mut String, n: u16)
    ensures
        final(s)@ == old(s)@ + decimal(n as nat),
    decreases n,
{
    if n >= 10 {
        push_decimal(s, n / 10);
    }
    s.append(digit_str(n % 10));
    proof {
        if n >= 10 {
            assert(old(s)@ + decimal(n as nat) =~= old(s)@ + decimal((n / 10) as nat) + seq![
                digit((n % 10) as nat),
            ]);
        } else {
            assert(old(s)@ + decimal(n as nat) =~= old(s)@ + seq![digit((n % 10) as nat)]);
        }
    }
}

/// The key of a flat colour whose channels, scaled by 1024 and rounded, are `r`, `g` and `b`:
/// `colour/r,g,b` in decimal.
pub fn colour_key(r: u16, g: u16, b: u16) -> (s: String)
    ensures
        s@ == colour_key_of(r, g, b),
{
    let mut s = String::from_str("colour/");
    push_decimal(&mut s, r);
    s.append(",");
    push_decimal(&mut s, g);
    s.append(",");
    push_decimal(&mut s, b);
    s
}

/// The position of the first of `keys` equal to `key`, if any.
pub fn find_key(keys: &Vec<String>, key: &str) -> (r: Option<usize>)
    ensures
        r matches Some(i) ==> i < keys@.len() && keys@[i as int]@ == key@ && forall|j: int|
            0 <= j < i ==> #[trigger] keys@[j]@ != key@,
        r is None ==> forall|j: int| 0 <= j < keys@.len() ==> #[trigger] keys@[j]@ != key@,
{
    let wanted = key.to_owned();
    let mut i: usize = 0;
    while i < keys.len()
        invariant
            wanted@ == key@,
            i <= keys@.len(),
            forall|j: int| 0 <= j < i ==> #[trigger] keys@[j]@ != key@,
        decreases keys@.len() - i,
    {
        if keys[i] == wanted {
            return Some(i);
        }
        i = i + 1;
    }
    None
}

/// The keys of loaded assets (textures or meshes), each at the slot of its asset: a path, or
/// a colour key. No key is filed twice.
pub struct AssetKeys {
    keys: Vec<String>,
}

impl AssetKeys {
    /// The keys, in order of filing.
    pub closed spec fn view(&self) -> Seq<Seq<char>> {
        self.keys@.map_values(|k: String| k@)
    }

    /// No key appears twice.
    pub open spec fn wf(&self) -> bool {
        forall|i: int, j: int| 0 <= i < j < self@.len() ==> self@[i] != self@[j]
    }

    /// No keys.
    pub fn new() -> (r: AssetKeys)
        ensures
            r.wf(),
            r@ == Seq::<Seq<char>>::empty(),
    {
        let r = AssetKeys { keys: Vec::new() };
        assert(r@ =~= Seq::<Seq<char>>::empty());
        r
    }

    /// The number of keys filed.
    pub fn len(&self) -> (r: usize)
        ensures
            r == self@.len(),
    {
        self.keys.len()
    }

    /// The slot of `key`, if it has been filed.
    pub fn slot_of(&self, key: &str) -> (r: Option<usize>)
        requires
            self.wf(),
        ensures
            r matches Some(i) ==> i < self@.len() && self@[i as int] == key@,
            r is None <==> !self@.contains(key@),
    {
        let r = find_key(&self.keys, key);
        proof {
            if r is None {
                assert forall|j: int| 0 <= j < self@.len() implies self@[j] != key@ by {
                    assert(self.keys@[j]@ != key@);
                }
            } else {
                let i = r->Some_0 as int;
                assert(self@[i] == self.keys@[i]@);
            }
        }
        r
    }

    /// Files `key` unless it is filed already. Returns its slot, and whether it was new: a new
    /// key goes to the next free slot, at the end.
    pub fn file(&mut self, key: String) -> (r: (usize, bool))
        requires
            old(self).wf(),
        ensures
            final(self).wf(),
            old(self)@.contains(key@) ==> !r.1 && final(self)@ == old(self)@ && r.0 < old(
                self,
            )@.len() && old(self)@[r.0 as int] == key@,
            !old(self)@.contains(key@) ==> r.1 && r.0 == old(self)@.len() && final(self)@ == old(
                self,
            )@.push(key@),
    {
        match self.slot_of(key.as_str()) {
            Some(i) => (i, false),
            None => {
                let ghost before = self@;
                let slot = self.keys.len();
                self.keys.push(key);
                proof {
                    assert(self@ =~= before.push(key@));
                    assert forall|i: int, j: int| 0 <= i < j < self@.len() implies self@[i]
                        != self@[j] by {
                        if j == before.len() {
                            assert(!before.contains(key@));
                            assert(self@[i] == before[i]);
                        }
                    }
                }
                (slot, true)
            }
        }
    }
}

} // verus!
