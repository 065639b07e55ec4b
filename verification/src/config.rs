//! The configuration of one interception: which traffic is diverted, to
//! which proxy, and under which packet marks and routing table.

use vstd::prelude::*;
use vstd::string::*;

verus! {

/// The widest packet mark the firewall can hold (32 bits).
pub const MARK_MAX: u64 = 0xFFFF_FFFF;

/// What one interception needs to know.
///
/// A configuration is meant to meet an invariant, [`ConfigView::valid`]:
/// the two marks are non-zero, fit in 32 bits and differ, and the routing
/// table is not one that the system reserves. Nothing enforces it: every
/// configuration can be planned for, and [`Config::is_valid`] tells
/// whether one meets it.
pub struct Config {
    /// The interface whose inbound traffic is intercepted.
    pub eth_name: &'static str,
    /// The port the local transparent proxy listens on.
    pub proxy_port: &'static str,
    /// The port whose traffic is selected for interception.
    pub redirect_port: &'static str,
    /// The policy-routing table dedicated to the redirection.
    pub route_table: &'static str,
    /// The packet mark that means "already processed, do not intercept again".
    pub ignore_mask: isize,
    /// The packet mark that means "divert this packet to the proxy".
    pub mask: isize,
}

/// The mathematical content of a [`Config`].
pub struct ConfigView {
    pub eth_name: Seq<char>,
    pub proxy_port: Seq<char>,
    pub redirect_port: Seq<char>,
    pub route_table: Seq<char>,
    pub ignore_mask: int,
    pub mask: int,
}

impl View for Config {
    type V = ConfigView;

    open spec fn view(&self) -> ConfigView {
        ConfigView {
            eth_name: self.eth_name@,
            proxy_port: self.proxy_port@,
            redirect_port: self.redirect_port@,
            route_table: self.route_table@,
            ignore_mask: self.ignore_mask as int,
            mask: self.mask as int,
        }
    }
}

/// Whether `mark` is usable as a packet mark: non-zero and within 32 bits.
pub open spec fn mark_usable(mark: int) -> bool {
    0 < mark <= MARK_MAX
}

/// Whether `table` names one of the routing tables the system reserves for
/// itself: `unspec` (0), `default` (253), `main` (254) and `local` (255),
/// by number or by name.
pub open spec fn table_reserved(table: Seq<char>) -> bool {
    ||| table == "0"@
    ||| table == "253"@
    ||| table == "254"@
    ||| table == "255"@
    ||| table == "unspec"@
    ||| table == "default"@
    ||| table == "main"@
    ||| table == "local"@
}

impl ConfigView {
    /// The invariant of a configuration: the two marks are usable and
    /// distinct, and the routing table is not a reserved one.
    pub open spec fn valid(self) -> bool {
        &&& mark_usable(self.ignore_mask)
        &&& mark_usable(self.mask)
        &&& self.ignore_mask != self.mask
        &&& !table_reserved(self.route_table)
    }
}

/// Whether two texts hold the same characters.
fn same_text(a: &str, b: &str) -> (same: bool)
    ensures
        same == (a@ == b@),
{
    a.to_owned() == b.to_owned()
}

/// Whether `mark` is non-zero and fits in 32 bits.
pub fn is_mark_usable(mark: isize) -> (usable: bool)
    ensures
        usable == mark_usable(mark as int),
{
    0 < mark && (mark as i128) <= (MARK_MAX as i128)
}

/// Whether `table` names a routing table reserved by the system.
pub fn is_table_reserved(table: &str) -> (reserved: bool)
    ensures
        reserved == table_reserved(table@),
{
    same_text(table, "0") || same_text(table, "253") || same_text(table, "254") || same_text(
        table,
        "255",
    ) || same_text(table, "unspec") || same_text(table, "default") || same_text(table, "main")
        || same_text(table, "local")
}

impl Config {
    /// Whether the configuration meets its invariant.
    pub fn is_valid(&self) -> (valid: bool)
        ensures
            valid == self@.valid(),
    {
        is_mark_usable(self.ignore_mask) && is_mark_usable(self.mask) && self.ignore_mask
            != self.mask && !is_table_reserved(self.route_table)
    }
}

} // verus!
