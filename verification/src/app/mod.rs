//! The service: the registration store and the pass template, and what
//! devices and operators may ask of them.

mod apple;
mod config;
mod loyality_pass;
mod passes;

pub use apple::{lemma_newest, newest, serial_of, watermark};
pub use config::{default_http_listener_host, AppConfig};
pub use loyality_pass::{can_add_points, may_add};
pub use passes::{issued_card, issued_pass};

use crate::db::tables::Tables;
use crate::db::Database;
use crate::wallet::PassMaker;
use vstd::prelude::*;

verus! {

/// The service: the template of its passes and its registration store.
#[derive(Debug)]
pub struct App {
    pass_maker: PassMaker,
    db_pool: Database,
}

impl View for App {
    type V = Tables;

    closed spec fn view(&self) -> Tables {
        self.db_pool@
    }
}

impl App {
    /// The identifier of the template from which this service makes passes.
    pub closed spec fn template(&self) -> Seq<char> {
        self.pass_maker.template()
    }

    /// The service on a template and a store.

    pub fn new(pass_maker: PassMaker, db_pool: Database) -> (app: Self)
        ensures
            app@ == db_pool@,
            app.template() == pass_maker.template(),
    {
        App { pass_maker, db_pool }
    }

    /// Puts another store in the place of the one that the service holds:
    /// for a service that keeps its rows elsewhere too and reads them back.
    pub fn reload(&mut self, db_pool: Database)
        ensures
            final(self)@ == db_pool@,
            final(self).template() == old(self).template(),
    {
        self.db_pool = db_pool;
    }

    /// The registration store.
    pub fn database(&self) -> (db: &Database)
        ensures
            db@ == self@,
            self@.wf(),
    {
        proof {
            use_type_invariant(&self.db_pool);
        }
        &self.db_pool
    }

    /// The pass template.
    pub fn pass_maker(&self) -> (maker: &PassMaker)
        ensures
            maker.template() == self.template(),
    {
        &self.pass_maker
    }
}

} // verus!
