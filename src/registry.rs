//! Marketplace records, each at the address derived from its name: two
//! marketplaces never share a name.
use vstd::prelude::*;

use crate::derive::{marketplace_address, marketplace_seeds, program_address, treasury_address, treasury_seeds};
use crate::market::MarketError;

verus! {

/// The longest name that can seed a derived address.
pub const MAX_NAME_LEN: usize = 32;

/// A named, fee-configured marketplace.
#[derive(Clone, Debug)]
pub struct Marketplace {
    pub admin: u64,
    pub fee: u16,
    pub bump: u8,
    pub treasury_bump: u8,
    pub name: Vec<u8>,
}

/// Whether `name` can seed a marketplace's address: 1 to 32 bytes.
pub open spec fn name_ok(name: Seq<u8>) -> bool {
    1 <= name.len() <= 32
}

/// Checks the length of a marketplace name.
pub fn valid_name(name: &Vec<u8>) -> (r: bool)
    ensures
        r == name_ok(name@),
{
    name.len() > 0 && name.len() <= MAX_NAME_LEN
}

/// Whether two byte strings are equal.
fn same_bytes(a: &Vec<u8>, b: &Vec<u8>) -> (r: bool)
    ensures
        r == (a@ == b@),
{
    if a.len() != b.len() {
        return false;
    }
    let mut i: usize = 0;
    while i < a.len()
        invariant
            a.len() == b.len(),
            i <= a.len(),
            forall|k: int| 0 <= k < i ==> a@[k] == b@[k],
        decreases a.len() - i,
    {
        if a[i] != b[i] {
            return false;
        }
        i = i + 1;
    }
    assert(a@ =~= b@);
    true
}

impl Marketplace {
    /// Builds a marketplace record after checking the length of its name.
    pub fn init(admin: u64, name: Vec<u8>, fee: u16, bump: u8, treasury_bump: u8) -> (r: Result<Marketplace, MarketError>)
        ensures
            name_ok(name@) ==> r == Ok::<Marketplace, MarketError>(Marketplace { admin, fee, bump, treasury_bump, name }),
            !name_ok(name@) ==> r == Err::<Marketplace, MarketError>(MarketError::NameTooLong),
    {
        if !valid_name(&name) {
            return Err(MarketError::NameTooLong);
        }
        Ok(Marketplace { admin, fee, bump, treasury_bump, name })
    }
}

/// All marketplace records of one program.
pub struct Registry {
    program_id: [u8; 32],
    markets: Vec<Marketplace>,
}

/// The bumps of a marketplace named `name` and of its treasury, or `None`
/// where either address cannot be derived.
pub open spec fn marketplace_bumps(program_id: Seq<u8>, name: Seq<u8>) -> Option<(u8, u8)> {
    match program_address(marketplace_seeds(name), program_id) {
        None => None,
        Some((a, b)) => match program_address(treasury_seeds(a), program_id) {
            None => None,
            Some((_, tb)) => Some((b, tb)),
        },
    }
}

/// No two records share a name.
pub open spec fn names_distinct(markets: Seq<Marketplace>) -> bool {
    forall|i: int, j: int| 0 <= i < j < markets.len() ==> markets[i].name@ != markets[j].name@
}

/// Whether some record is named `name`.
pub open spec fn name_taken(markets: Seq<Marketplace>, name: Seq<u8>) -> bool {
    exists|i: int| 0 <= i < markets.len() && markets[i].name@ == name
}

impl View for Registry {
    type V = Seq<Marketplace>;

    closed spec fn view(&self) -> Seq<Marketplace> {
        self.markets@
    }
}

impl Registry {
    pub open spec fn wf(&self) -> bool {
        names_distinct(self@)
    }

    /// The program under which addresses are derived.
    pub closed spec fn program(&self) -> Seq<u8> {
        self.program_id@
    }

    /// The program under which addresses are derived.
    pub fn program_id(&self) -> (r: [u8; 32])
        ensures
            r@ == self.program(),
    {
        self.program_id
    }

    /// A registry with no marketplace.
    pub fn new(program_id: [u8; 32]) -> (r: Registry)
        ensures
            r.wf(),
            r@ == Seq::<Marketplace>::empty(),
            r.program() == program_id@,
    {
        Registry { program_id, markets: Vec::new() }
    }

    /// The number of marketplaces.
    pub fn len(&self) -> (r: usize)
        ensures
            r == self@.len(),
    {
        self.markets.len()
    }

    /// The marketplace at `index`.
    pub fn get(&self, index: usize) -> (r: &Marketplace)
        requires
            index < self@.len(),
        ensures
            *r == self@[index as int],
    {
        &self.markets[index]
    }

    /// The index of the marketplace named `name`, if there is one.
    pub fn find(&self, name: &Vec<u8>) -> (r: Option<usize>)
        ensures
            match r {
                Some(i) => i < self@.len() && self@[i as int].name@ == name@,
                None => !name_taken(self@, name@),
            },
    {
        let mut i: usize = 0;
        while i < self.markets.len()
            invariant
                i <= self.markets@.len(),
                forall|k: int| 0 <= k < i ==> self.markets@[k].name@ != name@,
            decreases self.markets@.len() - i,
        {
            if same_bytes(&self.markets[i].name, name) {
                return Some(i);
            }
            i = i + 1;
        }
        None
    }

    /// Creates the marketplace named `name`, administered by `admin`, with
    /// the bumps of its own and its treasury's derived addresses, and returns
    /// its index. A name of the wrong length is refused before any address is
    /// derived; a name already taken is refused too.
    pub fn initialize(&mut self, admin: u64, name: Vec<u8>, fee: u16) -> (r: Result<usize, MarketError>)
        requires
            old(self).wf(),
        ensures
            final(self).wf(),
            final(self).program() == old(self).program(),
            !name_ok(name@) ==> r == Err::<usize, MarketError>(MarketError::NameTooLong) && final(self)@ == old(self)@,
            name_ok(name@) && name_taken(old(self)@, name@) ==> r == Err::<usize, MarketError>(MarketError::AlreadyExists) && final(self)@ == old(self)@,
            name_ok(name@) && !name_taken(old(self)@, name@) ==> match marketplace_bumps(old(self).program(), name@) {
                None => r == Err::<usize, MarketError>(MarketError::DerivationFailed) && final(self)@ == old(self)@,
                Some((bump, treasury_bump)) => r == Ok::<usize, MarketError>(old(self)@.len() as usize)
                    && final(self)@ == old(self)@.push(Marketplace { admin, fee, bump, treasury_bump, name }),
            },
    {
        if !valid_name(&name) {
            return Err(MarketError::NameTooLong);
        }
        if self.find(&name).is_some() {
            return Err(MarketError::AlreadyExists);
        }
        let (address, bump) = match marketplace_address(&self.program_id, &name) {
            Some(found) => found,
            None => return Err(MarketError::DerivationFailed),
        };
        let treasury_bump = match treasury_address(&self.program_id, &address) {
            Some((_, b)) => b,
            None => return Err(MarketError::DerivationFailed),
        };
        let index = self.markets.len();
        let ghost n = name;
        let m = match Marketplace::init(admin, name, fee, bump, treasury_bump) {
            Ok(m) => m,
            Err(e) => return Err(e),
        };
        self.markets.push(m);
        assert(names_distinct(self@)) by {
            assert forall|i: int, j: int| 0 <= i < j < self@.len() implies self@[i].name@ != self@[j].name@ by {
                if j == self@.len() - 1 {
                    assert(self@[j].name@ == n@);
                    assert(self@[i] == old(self)@[i]);
                }
            }
        }
        Ok(index)
    }
}

} // verus!
