//! The registration store: devices, passes, the registrations that link
//! them, and the loyalty card of each pass.

pub mod keyed;
mod lookup;
pub mod models;
pub mod queries;
mod restore;
pub mod tables;
pub mod validity;

pub use models::{DbDevice, DbDevicePassRegistration, DbPass, DbPassType, DbPassTypeHelper, DbPassTypeLoyality};

use tables::{DeviceRow, LoyalityRow, PassRow, RegistrationRow, Tables};
use vstd::prelude::*;

verus! {

/// The store. It holds its rows in the order in which they were written and
/// is valid at all times: see [`Tables::wf`].
#[derive(Debug)]
pub struct Database {
    devices: Vec<DbDevice>,
    passes: Vec<DbPass>,
    registrations: Vec<DbDevicePassRegistration>,
    loyality: Vec<DbPassTypeLoyality>,
}

/// The rows that devices stand for.

pub open spec fn device_rows(v: Seq<DbDevice>) -> Seq<DeviceRow> {
    v.map_values(|x: DbDevice| x@)
}

/// The rows that passes stand for.

pub open spec fn pass_rows(v: Seq<DbPass>) -> Seq<PassRow> {
    v.map_values(|x: DbPass| x@)
}

/// The rows that registrations stand for.

pub open spec fn registration_rows(v: Seq<DbDevicePassRegistration>) -> Seq<RegistrationRow> {
    v.map_values(|x: DbDevicePassRegistration| x@)
}

/// The rows that loyalty cards stand for.

pub open spec fn loyality_rows(v: Seq<DbPassTypeLoyality>) -> Seq<LoyalityRow> {
    v.map_values(|x: DbPassTypeLoyality| x@)
}

/// The texts that a vector of strings holds.
pub open spec fn texts(v: Seq<String>) -> Seq<Seq<char>> {
    v.map_values(|x: String| x@)
}

/// The rows of a vector with one more device.

pub proof fn lemma_device_rows_push(v: Seq<DbDevice>, x: DbDevice)
    ensures
        device_rows(v.push(x)) == device_rows(v).push(x@),
{
    assert(device_rows(v.push(x)) =~= device_rows(v).push(x@));
}

/// The rows of a vector with one more pass.

pub proof fn lemma_pass_rows_push(v: Seq<DbPass>, x: DbPass)
    ensures
        pass_rows(v.push(x)) == pass_rows(v).push(x@),
{
    assert(pass_rows(v.push(x)) =~= pass_rows(v).push(x@));
}

/// The rows of a vector with one more registration.

pub proof fn lemma_registration_rows_push(
    v: Seq<DbDevicePassRegistration>,
    x: DbDevicePassRegistration,
)
    ensures
        registration_rows(v.push(x)) == registration_rows(v).push(x@),
{
    assert(registration_rows(v.push(x)) =~= registration_rows(v).push(x@));
}

/// The rows of a vector with one more loyalty card.

pub proof fn lemma_loyality_rows_push(v: Seq<DbPassTypeLoyality>, x: DbPassTypeLoyality)
    ensures
        loyality_rows(v.push(x)) == loyality_rows(v).push(x@),
{
    assert(loyality_rows(v.push(x)) =~= loyality_rows(v).push(x@));
}

impl View for Database {
    type V = Tables;

    closed spec fn view(&self) -> Tables {
        Tables {
            devices: device_rows(self.devices@),
            passes: pass_rows(self.passes@),
            registrations: registration_rows(self.registrations@),
            loyality: loyality_rows(self.loyality@),
        }
    }
}

impl Database {
    /// What holds of every store.
    #[verifier::type_invariant]
    pub open spec fn inv(&self) -> bool {
        self@.wf()
    }

    /// Appends a device.
    pub(crate) fn push_device(&mut self, row: DbDevice)
        requires
            (Tables { devices: old(self)@.devices.push(row@), ..old(self)@ }).wf(),
        ensures
            final(self)@ == (Tables { devices: old(self)@.devices.push(row@), ..old(self)@ }),
    {
        proof {
            use_type_invariant(&*self);
            lemma_device_rows_push(self.devices@, row);
        }
        let mut registrations: Vec<DbDevicePassRegistration> = Vec::new();
        core::mem::swap(&mut self.registrations, &mut registrations);
        let mut devices: Vec<DbDevice> = Vec::new();
        core::mem::swap(&mut self.devices, &mut devices);
        devices.push(row);
        self.devices = devices;
        self.registrations = registrations;
    }

    /// Appends a pass.
    pub(crate) fn push_pass(&mut self, row: DbPass)
        requires
            (Tables { passes: old(self)@.passes.push(row@), ..old(self)@ }).wf(),
        ensures
            final(self)@ == (Tables { passes: old(self)@.passes.push(row@), ..old(self)@ }),
    {
        proof {
            use_type_invariant(&*self);
            lemma_pass_rows_push(self.passes@, row);
        }
        let mut registrations: Vec<DbDevicePassRegistration> = Vec::new();
        core::mem::swap(&mut self.registrations, &mut registrations);
        let mut passes: Vec<DbPass> = Vec::new();
        core::mem::swap(&mut self.passes, &mut passes);
        passes.push(row);
        self.passes = passes;
        self.registrations = registrations;
    }

    /// Appends a registration.
    pub(crate) fn push_registration(&mut self, row: DbDevicePassRegistration)
        requires
            (Tables { registrations: old(self)@.registrations.push(row@), ..old(self)@ }).wf(),
        ensures
            final(self)@ == (Tables {
                registrations: old(self)@.registrations.push(row@),
                ..old(self)@
            }),
    {
        proof {
            use_type_invariant(&*self);
            lemma_registration_rows_push(self.registrations@, row);
        }
        let mut registrations: Vec<DbDevicePassRegistration> = Vec::new();
        core::mem::swap(&mut self.registrations, &mut registrations);
        registrations.push(row);
        self.registrations = registrations;
    }

    /// Appends a loyalty card.
    pub(crate) fn push_loyality(&mut self, row: DbPassTypeLoyality)
        requires
            (Tables { loyality: old(self)@.loyality.push(row@), ..old(self)@ }).wf(),
        ensures
            final(self)@ == (Tables { loyality: old(self)@.loyality.push(row@), ..old(self)@ }),
    {
        proof {
            use_type_invariant(&*self);
            lemma_loyality_rows_push(self.loyality@, row);
        }
        let mut loyality: Vec<DbPassTypeLoyality> = Vec::new();
        core::mem::swap(&mut self.loyality, &mut loyality);
        loyality.push(row);
        self.loyality = loyality;
    }

    /// Replaces the device at an index.
    pub(crate) fn set_device(&mut self, i: usize, row: DbDevice)
        requires
            i < old(self)@.devices.len(),
            (Tables { devices: old(self)@.devices.update(i as int, row@), ..old(self)@ }).wf(),
        ensures
            final(self)@ == (Tables {
                devices: old(self)@.devices.update(i as int, row@),
                ..old(self)@
            }),
    {
        proof {
            use_type_invariant(&*self);
            assert(device_rows(self.devices@.update(i as int, row)) =~= device_rows(
                self.devices@,
            ).update(i as int, row@));
        }
        let mut registrations: Vec<DbDevicePassRegistration> = Vec::new();
        core::mem::swap(&mut self.registrations, &mut registrations);
        let mut devices: Vec<DbDevice> = Vec::new();
        core::mem::swap(&mut self.devices, &mut devices);
        devices[i] = row;
        self.devices = devices;
        self.registrations = registrations;
    }

    /// Replaces the pass at an index.
    pub(crate) fn set_pass(&mut self, i: usize, row: DbPass)
        requires
            i < old(self)@.passes.len(),
            (Tables { passes: old(self)@.passes.update(i as int, row@), ..old(self)@ }).wf(),
        ensures
            final(self)@ == (Tables {
                passes: old(self)@.passes.update(i as int, row@),
                ..old(self)@
            }),
    {
        proof {
            use_type_invariant(&*self);
            assert(pass_rows(self.passes@.update(i as int, row)) =~= pass_rows(
                self.passes@,
            ).update(i as int, row@));
        }
        let mut registrations: Vec<DbDevicePassRegistration> = Vec::new();
        core::mem::swap(&mut self.registrations, &mut registrations);
        let mut passes: Vec<DbPass> = Vec::new();
        core::mem::swap(&mut self.passes, &mut passes);
        passes[i] = row;
        self.passes = passes;
        self.registrations = registrations;
    }

    /// Replaces the loyalty card at an index.
    pub(crate) fn set_loyality(&mut self, i: usize, row: DbPassTypeLoyality)
        requires
            i < old(self)@.loyality.len(),
            (Tables { loyality: old(self)@.loyality.update(i as int, row@), ..old(self)@ }).wf(),
        ensures
            final(self)@ == (Tables {
                loyality: old(self)@.loyality.update(i as int, row@),
                ..old(self)@
            }),
    {
        proof {
            use_type_invariant(&*self);
            assert(loyality_rows(self.loyality@.update(i as int, row)) =~= loyality_rows(
                self.loyality@,
            ).update(i as int, row@));
        }
        let mut loyality: Vec<DbPassTypeLoyality> = Vec::new();
        core::mem::swap(&mut self.loyality, &mut loyality);
        loyality[i] = row;
        self.loyality = loyality;
    }

    /// The devices, in the order in which they were written.
    pub fn devices(&self) -> (rows: &Vec<DbDevice>)
        ensures
            device_rows(rows@) == self@.devices,
            self@.wf(),
    {
        proof {
            use_type_invariant(self);
        }
        &self.devices
    }

    /// The passes, in the order in which they were written.
    pub fn passes(&self) -> (rows: &Vec<DbPass>)
        ensures
            pass_rows(rows@) == self@.passes,
            self@.wf(),
    {
        proof {
            use_type_invariant(self);
        }
        &self.passes
    }

    /// The registrations, in the order in which they were written.
    pub fn registrations(&self) -> (rows: &Vec<DbDevicePassRegistration>)
        ensures
            registration_rows(rows@) == self@.registrations,
            self@.wf(),
    {
        proof {
            use_type_invariant(self);
        }
        &self.registrations
    }

    /// The loyalty cards, in the order in which they were written.
    pub fn loyality(&self) -> (rows: &Vec<DbPassTypeLoyality>)
        ensures
            loyality_rows(rows@) == self@.loyality,
            self@.wf(),
    {
        proof {
            use_type_invariant(self);
        }
        &self.loyality
    }

    /// A store without rows.
    pub fn new() -> (db: Self)
        ensures
            db@ == Tables::empty(),
    {
        let db = Database {
            devices: Vec::new(),
            passes: Vec::new(),
            registrations: Vec::new(),
            loyality: Vec::new(),
        };
        assert(db@.devices =~= Seq::empty());
        assert(db@.passes =~= Seq::empty());
        assert(db@.registrations =~= Seq::empty());
        assert(db@.loyality =~= Seq::empty());
        db
    }
}

} // verus!
