//! Access points found by a scan, as offered to the portal.
use vstd::prelude::*;

verus! {

/// A network that a scan found.
#[derive(Clone, Debug)]
pub struct AccessPoint {
    pub ssid: String,
    /// Signal strength in percent, as the network service reports it.
    pub strength: u32,
    /// Whether joining the network takes a password.
    pub secured: bool,
}

/// The access points of one scan, in the order the scan gave them, hidden
/// networks (those with an empty name) left out.
#[derive(Clone, Debug)]
pub struct AccessPoints {
    pub points: Vec<AccessPoint>,
}

/// The network names of a sequence of access points, in order.
pub open spec fn names_of(points: Seq<AccessPoint>) -> Seq<Seq<char>> {
    points.map_values(|p: AccessPoint| p.ssid@)
}

/// The access points of `points` that have a non-empty name, in order.
pub open spec fn visible(points: Seq<AccessPoint>) -> Seq<AccessPoint> {
    points.filter(|p: AccessPoint| p.ssid@.len() > 0)
}

/// The name that `serde_json::to_string` gives a list of strings: the JSON
/// array of those strings.
pub uninterp spec fn json_string_array(names: Seq<Seq<char>>) -> Seq<char>;

/// Relies on serde_json::to_string to write a list of strings as a JSON array.
/// It writes into a `Vec<u8>` and a string always serializes, so it never
/// fails on a list of strings; the error type is turned into `None`.
#[verifier::external_body]
fn encode_string_array(names: &Vec<String>) -> (r: Option<String>)
    ensures
        r is Some,
        r matches Some(s) ==> s@ == json_string_array(names.deep_view()),
        names@.len() == 0 ==> r->0@ == seq!['[', ']'],
{
    serde_json::to_string(names).ok()
}

impl AccessPoints {
    /// No access point of the list is hidden.
    pub open spec fn wf(&self) -> bool {
        forall|i: int| 0 <= i < self.points@.len() ==> (#[trigger] self.points@[i]).ssid@.len() > 0
    }

    /// The access points of a scan with the hidden ones left out.
    pub fn from_scan(scan: Vec<AccessPoint>) -> (r: AccessPoints)
        ensures
            r.points@ == visible(scan@),
            r.wf(),
    {
        let mut points: Vec<AccessPoint> = Vec::new();
        let mut i: usize = 0;
        while i < scan.len()
            invariant
                i <= scan@.len(),
                points@ == visible(scan@.subrange(0, i as int)),
            decreases scan@.len() - i,
        {
            let ap = &scan[i];
            proof {
                assert(scan@.subrange(0, i + 1).drop_last() == scan@.subrange(0, i as int));
                reveal(Seq::filter);
            }
            if !ap.ssid.as_str().is_empty() {
                points.push(AccessPoint { ssid: ap.ssid.clone(), strength: ap.strength, secured: ap.secured });
            }
            i = i + 1;
        }
        proof {
            assert(scan@.subrange(0, scan@.len() as int) == scan@);
            broadcast use vstd::seq_lib::group_filter_ensures;

        }
        AccessPoints { points }
    }

    /// Whether a network of that name is among these access points.
    pub fn contains_ssid(&self, ssid: &String) -> (r: bool)
        ensures
            r == names_of(self.points@).contains(ssid@),
    {
        let mut i: usize = 0;
        while i < self.points.len()
            invariant
                i <= self.points@.len(),
                forall|j: int| 0 <= j < i ==> (#[trigger] self.points@[j]).ssid@ != ssid@,
            decreases self.points@.len() - i,
        {
            if self.points[i].ssid == *ssid {
                proof {
                    assert(names_of(self.points@)[i as int] == ssid@);
                }
                return true;
            }
            i = i + 1;
        }
        proof {
            if names_of(self.points@).contains(ssid@) {
                let k = choose|k: int| 0 <= k < names_of(self.points@).len() && names_of(self.points@)[k] == ssid@;
                assert(self.points@[k].ssid@ == ssid@);
            }
        }
        false
    }

    /// The network names, in scan order.
    pub fn ssids(&self) -> (r: Vec<String>)
        ensures
            r.deep_view() == names_of(self.points@),
    {
        let mut names: Vec<String> = Vec::new();
        let mut i: usize = 0;
        while i < self.points.len()
            invariant
                i <= self.points@.len(),
                names@.len() == i,
                forall|j: int| 0 <= j < i ==> (#[trigger] names@[j])@ == self.points@[j].ssid@,
            decreases self.points@.len() - i,
        {
            names.push(self.points[i].ssid.clone());
            i = i + 1;
        }
        proof {
            assert(names.deep_view() =~= names_of(self.points@));
        }
        names
    }

    /// The body of the answer to a request for the network list: the names as
    /// a JSON array of strings.
    pub fn ssids_json(&self) -> (r: Option<String>)
        ensures
            r is Some,
            r matches Some(s) ==> s@ == json_string_array(names_of(self.points@)),
            self.points@.len() == 0 ==> r->0@ == seq!['[', ']'],
    {
        let names = self.ssids();
        assert(names.deep_view().len() == names@.len());
        encode_string_array(&names)
    }
}

} // verus!
