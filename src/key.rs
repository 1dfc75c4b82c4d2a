use vstd::prelude::*;

verus! {

/// A 32-byte account address or principal identifier.
#[derive(Clone, Copy, Debug, Eq)]
pub struct Pubkey {
    pub bytes: [u8; 32],
}

impl View for Pubkey {
    type V = Seq<u8>;

    open spec fn view(&self) -> Seq<u8> {
        self.bytes@
    }
}

impl Pubkey {
    pub fn new_from_array(bytes: [u8; 32]) -> (k: Pubkey)
        ensures
            k.bytes == bytes,
    {
        Pubkey { bytes }
    }

    pub fn to_bytes(&self) -> (r: [u8; 32])
        ensures
            r == self.bytes,
    {
        self.bytes
    }

    /// Compares two keys byte by byte.
    pub fn same_as(&self, other: &Pubkey) -> (r: bool)
        ensures
            r == (*self == *other),
    {
        broadcast use vstd::array::group_array_axioms;
        let mut i: usize = 0;
        while i < 32
            invariant
                i <= 32,
                forall|j: int| 0 <= j < i ==> self.bytes[j] == other.bytes[j],
            decreases 32 - i,
        {
            if self.bytes[i] != other.bytes[i] {
                return false;
            }
            i = i + 1;
        }
        assert(self.bytes =~= other.bytes);
        true
    }

    /// Copies the key's bytes into a vector, as used for address-derivation seeds.
    pub fn to_vec(&self) -> (r: Vec<u8>)
        ensures
            r@ == self.bytes@,
    {
        let mut r: Vec<u8> = Vec::new();
        let mut i: usize = 0;
        while i < 32
            invariant
                i <= 32,
                r@ == self.bytes@.take(i as int),
            decreases 32 - i,
        {
            r.push(self.bytes[i]);
            i = i + 1;
            assert(r@ =~= self.bytes@.take(i as int));
        }
        assert(self.bytes@.take(32) =~= self.bytes@);
        r
    }
}

impl PartialEq for Pubkey {
    fn eq(&self, other: &Pubkey) -> (r: bool) {
        self.same_as(other)
    }
}

impl vstd::std_specs::cmp::PartialEqSpecImpl for Pubkey {
    open spec fn obeys_eq_spec() -> bool {
        true
    }

    open spec fn eq_spec(&self, other: &Pubkey) -> bool {
        *self == *other
    }
}

/// Whether `k` occurs in `keys`.
pub fn contains_key(keys: &Vec<Pubkey>, k: &Pubkey) -> (r: bool)
    ensures
        r == keys@.contains(*k),
{
    let mut i: usize = 0;
    while i < keys.len()
        invariant
            i <= keys@.len(),
            forall|j: int| 0 <= j < i ==> keys@[j] != *k,
        decreases keys@.len() - i,
    {
        if keys[i].same_as(k) {
            return true;
        }
        i = i + 1;
    }
    false
}

/// Whether some key occurs twice in `keys`.
pub fn has_duplicate_keys(keys: &Vec<Pubkey>) -> (r: bool)
    ensures
        r == !keys@.no_duplicates(),
{
    let mut i: usize = 0;
    while i < keys.len()
        invariant
            i <= keys@.len(),
            forall|a: int, b: int| 0 <= a < b < keys@.len() && a < i ==> keys@[a] != keys@[b],
        decreases keys@.len() - i,
    {
        let mut j: usize = i + 1;
        while j < keys.len()
            invariant
                i < keys@.len(),
                i < j <= keys@.len(),
                forall|a: int, b: int| 0 <= a < b < keys@.len() && a < i ==> keys@[a] != keys@[b],
                forall|b: int| i < b < j ==> keys@[i as int] != keys@[b],
            decreases keys@.len() - j,
        {
            if keys[i].same_as(&keys[j]) {
                return true;
            }
            j = j + 1;
        }
        i = i + 1;
    }
    false
}

/// Position of the first occurrence of `k` in `keys`.
pub fn position_of(keys: &Vec<Pubkey>, k: &Pubkey) -> (r: Option<usize>)
    ensures
        match r {
            Some(i) => i < keys@.len() && keys@[i as int] == *k && forall|j: int|
                0 <= j < i ==> keys@[j] != *k,
            None => !keys@.contains(*k),
        },
{
    let mut i: usize = 0;
    while i < keys.len()
        invariant
            i <= keys@.len(),
            forall|j: int| 0 <= j < i ==> keys@[j] != *k,
        decreases keys@.len() - i,
    {
        if keys[i].same_as(k) {
            return Some(i);
        }
        i = i + 1;
    }
    None
}

} // verus!
