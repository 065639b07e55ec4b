//! The handle from which an interception is installed and removed.

use vstd::prelude::*;
use crate::config::Config;
use crate::plan::{deploy_plan, destroy_plan};
use crate::run::{Run, RunView};
use crate::topology::extend;

verus! {

/// Builds a [`Hijacker`] from a configuration.
pub struct Builder();

/// The handle of one interception: it knows the configuration and plans
/// every step that installs or removes the topology for it. It keeps no
/// record of what was applied; the kernel's tables are the only record.
pub struct Hijacker {
    pub conf: Config,
}

impl Builder {
    /// A handle for `conf`, which is copied into it as it is: whether it
    /// meets its invariant is not examined.
    pub fn new(conf: &Config) -> (hijacker: Hijacker)
        ensures
            hijacker.conf == *conf,
    {
        let cfg = Config {
            eth_name: conf.eth_name,
            proxy_port: conf.proxy_port,
            redirect_port: conf.redirect_port,
            route_table: conf.route_table,
            ignore_mask: conf.ignore_mask,
            mask: conf.mask,
        };
        Hijacker { conf: cfg }
    }
}

impl Hijacker {
    /// Starts the installation of the interception: a run through
    /// `deploy_plan`, with nothing performed yet.
    ///
    /// The run stops at the first fatal event and undoes nothing, so the
    /// system may be left partly configured: `destroy` is in order even
    /// after a failed installation. Nothing remembers an earlier
    /// installation either: a second one appends every rule a second time.
    pub fn deploy(&self) -> (run: Run)
        ensures
            run@ == RunView::start(deploy_plan(self.conf@)),
    {
        let mut plan = self.proc_init();
        extend(&mut plan, self.route_init());
        extend(&mut plan, self.compile());
        Run::new(plan)
    }

    /// Starts the removal of the interception: a run through
    /// `destroy_plan`, with nothing performed yet.
    ///
    /// Removal stops at the first fatal event, as installation does; the
    /// exit status of the routing and flag commands is not examined.
    pub fn destroy(&self) -> (run: Run)
        ensures
            run@ == RunView::start(destroy_plan(self.conf@)),
    {
        let mut plan = self.table_cleanup();
        extend(&mut plan, self.route_cleanup());
        extend(&mut plan, self.proc_reset());
        Run::new(plan)
    }
}

} // verus!
