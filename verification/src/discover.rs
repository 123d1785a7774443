//! Telling new devices from repeated announcements.
//!
//! A discovery query is broadcast once and every device on the network
//! answers it, some of them more than once. The table kept here remembers
//! the last record seen from each address and says, for each datagram that
//! arrives, whether it tells anything new.

use crate::cmds::{decode_response, Response, ResponseView};
use crate::info::{LaserInfo, LaserInfoView};
use std::collections::HashMap;
use vstd::prelude::*;

verus! {

broadcast use vstd::std_specs::hash::group_hash_axioms;

/// An IPv4 address as one number, first octet most significant.
pub open spec fn address_key(ip_addr: [u8; 4]) -> u32 {
    (16777216 * ip_addr[0] + 65536 * ip_addr[1] + 256 * ip_addr[2] + ip_addr[3]) as u32
}

/// The table after a record was seen: the record stands under its address.
pub open spec fn after_seeing(
    known: Map<u32, LaserInfoView>,
    info: LaserInfoView,
) -> Map<u32, LaserInfoView> {
    known.insert(address_key(info.header.ip_addr), info)
}

/// Whether a record tells something that the table does not hold: its
/// address is new, or the record differs from the one last seen there.
pub open spec fn is_news(known: Map<u32, LaserInfoView>, info: LaserInfoView) -> bool {
    let key = address_key(info.header.ip_addr);
    !known.contains_key(key) || known[key] != info
}

/// The devices seen so far, by address.
pub struct Discovered {
    known: HashMap<u32, LaserInfo>,
}

impl View for Discovered {
    type V = Map<u32, LaserInfoView>;

    closed spec fn view(&self) -> Map<u32, LaserInfoView> {
        self.known@.map_values(|info: LaserInfo| info@)
    }
}

fn key_of(ip_addr: &[u8; 4]) -> (key: u32)
    ensures
        key == address_key(*ip_addr),
{
    16777216 * (ip_addr[0] as u32) + 65536 * (ip_addr[1] as u32) + 256 * (ip_addr[2] as u32) + (
    ip_addr[3] as u32)
}

impl Discovered {
    /// A table that has seen no device.
    pub fn new() -> (table: Discovered)
        ensures
            table@ == Map::<u32, LaserInfoView>::empty(),
    {
        let table = Discovered { known: HashMap::new() };
        assert(table@ =~= Map::<u32, LaserInfoView>::empty());
        table
    }

    /// Records a device-info record and hands it back if it is news.
    pub fn note(&mut self, info: LaserInfo) -> (report: Option<LaserInfo>)
        ensures
            final(self)@ == after_seeing(old(self)@, info@),
            match report {
                Some(reported) => is_news(old(self)@, info@) && reported@ == info@,
                None => !is_news(old(self)@, info@),
            },
    {
        let key = key_of(&info.header.ip_addr);
        let repeated = match self.known.get(&key) {
            Some(seen) => seen.same_as(&info),
            None => false,
        };
        if repeated {
            assert(self@ =~= after_seeing(old(self)@, info@));
            None
        } else {
            let copy = info.clone();
            self.known.insert(key, copy);
            assert(self@ =~= after_seeing(old(self)@, info@));
            Some(info)
        }
    }

    /// Takes one datagram received after the discovery query. A datagram
    /// that does not decode, or that is no device-info record, changes
    /// nothing and reports nothing.
    pub fn observe(&mut self, datagram: &[u8]) -> (report: Option<LaserInfo>)
        ensures
            match decode_response(datagram@) {
                Ok(ResponseView::FullInfo(info)) => {
                    &&& final(self)@ == after_seeing(old(self)@, info)
                    &&& match report {
                        Some(reported) => is_news(old(self)@, info) && reported@ == info,
                        None => !is_news(old(self)@, info),
                    }
                },
                _ => final(self)@ == old(self)@ && report is None,
            },
    {
        match Response::try_from(datagram) {
            Ok(Response::FullInfo(info)) => self.note(info),
            _ => None,
        }
    }
}

/// A record that was just seen is no news when it comes again, and seeing
/// it again leaves the table as it is.
pub proof fn lemma_repeat_is_no_news(known: Map<u32, LaserInfoView>, info: LaserInfoView)
    ensures
        !is_news(after_seeing(known, info), info),
        after_seeing(after_seeing(known, info), info) == after_seeing(known, info),
{
    assert(after_seeing(after_seeing(known, info), info) =~= after_seeing(known, info));
}

/// The table holds at most one record per address: seeing a record changes
/// no entry but the one of its own address.
pub proof fn lemma_other_addresses_untouched(
    known: Map<u32, LaserInfoView>,
    info: LaserInfoView,
    key: u32,
)
    requires
        key != address_key(info.header.ip_addr),
    ensures
        after_seeing(known, info).contains_key(key) == known.contains_key(key),
        known.contains_key(key) ==> after_seeing(known, info)[key] == known[key],
{
}

} // verus!
