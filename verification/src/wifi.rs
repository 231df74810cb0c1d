//! Scan results, and the course of a scan and of an association.

use crate::storage::AuthKind;
use crate::text;
use vstd::prelude::*;
use vstd::string::*;

verus! {

pub const MAX_SCAN_RESULTS: usize = 8;

pub const SCAN_PASSES: usize = 2;

pub const CONNECT_ATTEMPTS: usize = 3;

/// A network that a scan found.
#[derive(Debug)]
pub struct ScanNetwork {
    pub ssid: String,
    pub signal_strength: i8,
    pub auth: AuthKind,
    /// The radio can join it.
    pub supported: bool,
}

/// What a [`ScanNetwork`] holds.
#[verifier::ext_equal]
pub struct ScanView {
    pub ssid: Seq<char>,
    pub signal_strength: i8,
    pub auth: AuthKind,
    pub supported: bool,
}

impl View for ScanNetwork {
    type V = ScanView;

    open spec fn view(&self) -> ScanView {
        ScanView {
            ssid: self.ssid@,
            signal_strength: self.signal_strength,
            auth: self.auth,
            supported: self.supported,
        }
    }
}

impl Clone for ScanNetwork {
    fn clone(&self) -> (copy: Self)
        ensures
            copy@ == self@,
    {
        ScanNetwork {
            ssid: self.ssid.clone(),
            signal_strength: self.signal_strength,
            auth: self.auth,
            supported: self.supported,
        }
    }
}

/// Why a connection failed.
#[derive(Clone, Copy, Debug, PartialEq, Eq, Structural)]
pub enum ConnectError {
    InvalidCredentials,
    Radio,
    Connection,
}

/// What a list of networks holds.
pub open spec fn scan_view(networks: Seq<ScanNetwork>) -> Seq<ScanView> {
    networks.map_values(|network: ScanNetwork| network@)
}

// ---------------------------------------------------------------------------
// Access points
// ---------------------------------------------------------------------------

/// How an access point says that it is protected.
#[derive(Clone, Copy, Debug, PartialEq, Eq, Structural)]
pub enum ScannedAuth {
    Open,
    Wep,
    Wpa,
    Wpa2Personal,
    WpaWpa2Personal,
    /// Something else, or nothing.
    Other,
}

/// An access point as the radio reports it.
#[derive(Debug)]
pub struct AccessPoint {
    pub ssid: String,
    pub signal_strength: i8,
    pub auth: ScannedAuth,
}

/// The protection of an access point, and whether the radio can join it.
pub fn map_scanned_auth(method: ScannedAuth) -> (auth: (AuthKind, bool))
    ensures
        auth == scanned_auth(method),
{
    match method {
        ScannedAuth::Open => (AuthKind::Open, true),
        ScannedAuth::Wep => (AuthKind::Wep, true),
        ScannedAuth::Wpa => (AuthKind::Wpa, true),
        ScannedAuth::Wpa2Personal => (AuthKind::Wpa2, true),
        ScannedAuth::WpaWpa2Personal => (AuthKind::WpaWpa2, true),
        ScannedAuth::Other => (AuthKind::Wpa2, false),
    }
}

/// The protection of an access point, and whether the radio can join it.
pub open spec fn scanned_auth(method: ScannedAuth) -> (AuthKind, bool) {
    match method {
        ScannedAuth::Open => (AuthKind::Open, true),
        ScannedAuth::Wep => (AuthKind::Wep, true),
        ScannedAuth::Wpa => (AuthKind::Wpa, true),
        ScannedAuth::Wpa2Personal => (AuthKind::Wpa2, true),
        ScannedAuth::WpaWpa2Personal => (AuthKind::WpaWpa2, true),
        ScannedAuth::Other => (AuthKind::Wpa2, false),
    }
}

/// The network that an access point belongs to.
pub open spec fn network_of(point: AccessPoint) -> ScanView {
    ScanView {
        ssid: point.ssid@,
        signal_strength: point.signal_strength,
        auth: scanned_auth(point.auth).0,
        supported: scanned_auth(point.auth).1,
    }
}

/// The networks of access points that say their name, in their order.
pub open spec fn named_networks(points: Seq<AccessPoint>) -> Seq<ScanView>
    decreases points.len(),
{
    if points.len() == 0 {
        Seq::empty()
    } else {
        let before = named_networks(points.drop_last());
        if points.last().ssid@.len() == 0 {
            before
        } else {
            before.push(network_of(points.last()))
        }
    }
}

/// The networks of a scan pass: access points that hide their name are left out.
pub fn scan_pass(points: Vec<AccessPoint>) -> (networks: Vec<ScanNetwork>)
    ensures
        scan_view(networks@) == named_networks(points@),
{
    let mut networks: Vec<ScanNetwork> = Vec::new();
    let mut i: usize = 0;
    assert(scan_view(networks@) =~= named_networks(points@.take(0)));
    while i < points.len()
        invariant
            i <= points@.len(),
            scan_view(networks@) == named_networks(points@.take(i as int)),
        decreases points@.len() - i,
    {
        let point = &points[i];
        assert(points@.take(i + 1).drop_last() =~= points@.take(i as int));
        if point.ssid.as_str().unicode_len() != 0 {
            let (auth, supported) = map_scanned_auth(point.auth);
            let ghost before = scan_view(networks@);
            networks.push(
                ScanNetwork {
                    ssid: point.ssid.clone(),
                    signal_strength: point.signal_strength,
                    auth,
                    supported,
                },
            );
            assert(scan_view(networks@) =~= before.push(network_of(points@[i as int])));
        }
        i += 1;
    }
    assert(points@.take(i as int) =~= points@);
    networks
}

/// What comes of setting up the radio for a network.
pub open spec fn configured(
    auth: AuthKind,
    ssid_fits: bool,
    password_fits: bool,
    applied: bool,
) -> Result<(), ConnectError> {
    if !ssid_fits || (auth != AuthKind::Open && !password_fits) {
        Err(ConnectError::InvalidCredentials)
    } else if !applied {
        Err(ConnectError::Radio)
    } else {
        Ok(())
    }
}

/// What comes of taking up a network: its name must fit the radio, its password
/// too unless the network is open, and the radio must accept both.
pub fn configure(auth: AuthKind, ssid_fits: bool, password_fits: bool, applied: bool) -> (result:
    Result<(), ConnectError>)
    ensures
        result == configured(auth, ssid_fits, password_fits, applied),
{
    let open = match auth {
        AuthKind::Open => true,
        _ => false,
    };
    if !ssid_fits || (!open && !password_fits) {
        Err(ConnectError::InvalidCredentials)
    } else if !applied {
        Err(ConnectError::Radio)
    } else {
        Ok(())
    }
}

// ---------------------------------------------------------------------------
// Merging passes
// ---------------------------------------------------------------------------

/// The first place where a network of that name stands, or the length.
pub open spec fn name_position(networks: Seq<ScanView>, ssid: Seq<char>) -> int
    decreases networks.len(),
{
    if networks.len() == 0 || networks[0].ssid == ssid {
        0
    } else {
        1 + name_position(networks.skip(1), ssid)
    }
}

pub open spec fn stronger(a: i8, b: i8) -> i8 {
    if a >= b {
        a
    } else {
        b
    }
}

/// A list after one more network: the strongest signal of each name is kept.
pub open spec fn with_network(networks: Seq<ScanView>, network: ScanView) -> Seq<ScanView> {
    let at = name_position(networks, network.ssid);
    if at < networks.len() {
        networks.update(
            at,
            ScanView {
                signal_strength: stronger(networks[at].signal_strength, network.signal_strength),
                ..networks[at]
            },
        )
    } else {
        networks.push(network)
    }
}

/// A list after a pass.
pub open spec fn with_networks(networks: Seq<ScanView>, results: Seq<ScanView>) -> Seq<ScanView>
    decreases results.len(),
{
    if results.len() == 0 {
        networks
    } else {
        with_network(with_networks(networks, results.drop_last()), results.last())
    }
}

/// The strongest signals come first.
pub open spec fn strongest_first(networks: Seq<ScanView>) -> bool {
    forall|i: int, j: int|
        0 <= i < j < networks.len() ==> (#[trigger] networks[i]).signal_strength >= (
        #[trigger] networks[j]).signal_strength
}

/// `list` is the beginning of `all` in an order in which the strongest signals
/// come first, cut to the length of a list.
pub open spec fn is_best_of(list: Seq<ScanView>, all: Seq<ScanView>) -> bool {
    exists|sorted: Seq<ScanView>|
        {
            &&& #[trigger] strongest_first(sorted)
            &&& sorted.to_multiset() == all.to_multiset()
            &&& list == if sorted.len() > MAX_SCAN_RESULTS {
                sorted.take(MAX_SCAN_RESULTS as int)
            } else {
                sorted
            }
        }
}

/// Merge one scan pass into the accumulated list: dedupe by SSID, keep the
/// strongest signal, sort by signal strength, and cap the list length. Networks
/// of the same strength come in no particular order.
pub fn merge_scan_results(networks: &mut Vec<ScanNetwork>, results: Vec<ScanNetwork>)
    ensures
        is_best_of(
            scan_view(final(networks)@),
            with_networks(scan_view(old(networks)@), scan_view(results@)),
        ),
{
    let ghost start = scan_view(networks@);
    let ghost all = scan_view(results@);
    let mut i: usize = 0;
    assert(all.take(0) =~= Seq::<ScanView>::empty());
    while i < results.len()
        invariant
            i <= results@.len(),
            all == scan_view(results@),
            scan_view(networks@) == with_networks(start, all.take(i as int)),
        decreases results@.len() - i,
    {
        assert(all.take(i + 1).drop_last() =~= all.take(i as int));
        assert(all.take(i + 1).last() == results@[i as int]@);
        merge_one(networks, &results[i]);
        i += 1;
    }
    assert(all.take(i as int) =~= all);
    let ghost merged = scan_view(networks@);
    sort_by_strength(networks);
    let ghost sorted = scan_view(networks@);
    assert(strongest_first(sorted));
    if networks.len() > MAX_SCAN_RESULTS {
        networks.truncate(MAX_SCAN_RESULTS);
        assert(scan_view(networks@) =~= sorted.take(MAX_SCAN_RESULTS as int));
    }
}

pub proof fn name_position_found(networks: Seq<ScanView>, ssid: Seq<char>, at: int)
    requires
        0 <= at <= networks.len(),
        at < networks.len() ==> networks[at].ssid == ssid,
        forall|i: int| 0 <= i < at ==> (#[trigger] networks[i]).ssid != ssid,
    ensures
        name_position(networks, ssid) == at,
    decreases networks.len(),
{
    if networks.len() > 0 && at > 0 {
        assert(networks[0].ssid != ssid);
        assert forall|i: int| 0 <= i < at - 1 implies (#[trigger] networks.skip(1)[i]).ssid
            != ssid by {
            assert(networks.skip(1)[i] == networks[i + 1]);
        }
        name_position_found(networks.skip(1), ssid, at - 1);
    }
}

/// The position of a network by its name, or the length of the list.
pub fn find_network(networks: &[ScanNetwork], ssid: &str) -> (at: usize)
    ensures
        at == name_position(scan_view(networks@), ssid@),
        at <= networks@.len(),
{
    let ghost all = scan_view(networks@);
    let mut i: usize = 0;
    while i < networks.len()
        invariant
            i <= networks@.len(),
            all == scan_view(networks@),
            forall|j: int| 0 <= j < i ==> (#[trigger] all[j]).ssid != ssid@,
        decreases networks@.len() - i,
    {
        assert(all[i as int] == networks@[i as int]@);
        if text::same_text(networks[i].ssid.as_str(), ssid) {
            proof {
                name_position_found(all, ssid@, i as int);
            }
            return i;
        }
        i += 1;
    }
    proof {
        name_position_found(all, ssid@, all.len() as int);
    }
    i
}

fn merge_one(networks: &mut Vec<ScanNetwork>, network: &ScanNetwork)
    ensures
        scan_view(final(networks)@) == with_network(scan_view(old(networks)@), network@),
{
    let ghost before = scan_view(networks@);
    let mut i: usize = 0;
    while i < networks.len()
        invariant
            i <= networks@.len(),
            networks@ == old(networks)@,
            before == scan_view(networks@),
            forall|j: int| 0 <= j < i ==> (#[trigger] before[j]).ssid != network.ssid@,
        decreases networks@.len() - i,
    {
        assert(before[i as int] == networks@[i as int]@);
        if text::same_text(networks[i].ssid.as_str(), network.ssid.as_str()) {
            proof {
                name_position_found(before, network.ssid@, i as int);
            }
            let strength: i8 = if networks[i].signal_strength >= network.signal_strength {
                networks[i].signal_strength
            } else {
                network.signal_strength
            };
            networks[i].signal_strength = strength;
            assert(scan_view(networks@) =~= with_network(before, network@));
            return ;
        }
        i += 1;
    }
    proof {
        name_position_found(before, network.ssid@, before.len() as int);
    }
    networks.push(network.clone());
    assert(scan_view(networks@) =~= before.push(network@));
}

/// Puts the strongest signals first.
fn sort_by_strength(networks: &mut Vec<ScanNetwork>)
    ensures
        strongest_first(scan_view(final(networks)@)),
        scan_view(final(networks)@).to_multiset() == scan_view(old(networks)@).to_multiset(),
        final(networks)@.len() == old(networks)@.len(),
{
    let mut sorted: usize = 0;
    while sorted < networks.len()
        invariant
            sorted <= networks@.len(),
            networks@.len() == old(networks)@.len(),
            scan_view(networks@).to_multiset() == scan_view(old(networks)@).to_multiset(),
            forall|i: int, j: int|
                0 <= i < j < sorted ==> (#[trigger] networks@[i]).signal_strength >= (
                #[trigger] networks@[j]).signal_strength,
            forall|i: int, j: int|
                0 <= i < sorted <= j < networks@.len() ==> (
                #[trigger] networks@[i]).signal_strength >= (
                #[trigger] networks@[j]).signal_strength,
        decreases networks@.len() - sorted,
    {
        let mut best: usize = sorted;
        let mut i: usize = sorted + 1;
        while i < networks.len()
            invariant
                sorted <= best < networks@.len(),
                sorted < i <= networks@.len(),
                forall|j: int|
                    sorted <= j < i ==> networks@[best as int].signal_strength >= (
                    #[trigger] networks@[j]).signal_strength,
            decreases networks@.len() - i,
        {
            if networks[i].signal_strength > networks[best].signal_strength {
                best = i;
            }
            i += 1;
        }
        let ghost before = networks@;
        swap_networks(networks, sorted, best);
        sorted += 1;
    }
    assert forall|i: int, j: int| 0 <= i < j < networks@.len() implies (
    #[trigger] scan_view(networks@)[i]).signal_strength >= (
    #[trigger] scan_view(networks@)[j]).signal_strength by {
        assert(networks@[i].signal_strength >= networks@[j].signal_strength);
    }
}

/// Exchanges two networks.
fn swap_networks(networks: &mut Vec<ScanNetwork>, a: usize, b: usize)
    requires
        a <= b < old(networks)@.len(),
    ensures
        final(networks)@.len() == old(networks)@.len(),
        forall|i: int|
            0 <= i < old(networks)@.len() ==> (#[trigger] final(networks)@[i])@ == old(networks)@[if i
                == a {
                b as int
            } else if i == b {
                a as int
            } else {
                i
            }]@,
        scan_view(final(networks)@).to_multiset() == scan_view(old(networks)@).to_multiset(),
{
    let ghost before = scan_view(networks@);
    let first = networks[a].clone();
    let second = networks[b].clone();
    networks.set(a, second);
    networks.set(b, first);
    let ghost after = scan_view(networks@);
    assert(after =~= before.update(a as int, before[b as int]).update(b as int, before[a as int]));
    proof {
        let x = before[a as int];
        let y = before[b as int];
        let once = before.update(a as int, y);
        vstd::seq_lib::to_multiset_update(before, a as int, y);
        vstd::seq_lib::to_multiset_update(once, b as int, x);
        vstd::seq_lib::to_multiset_contains(before, x);
        vstd::seq_lib::to_multiset_contains(before, y);
        assert(before.contains(x));
        assert(before.contains(y));
        assert(once[b as int] == y);
        assert(after.to_multiset() =~= before.to_multiset());
    }
}

// ---------------------------------------------------------------------------
// Laws of scan lists
// ---------------------------------------------------------------------------

/// No two networks of a list have the same name.
pub open spec fn names_differ(networks: Seq<ScanView>) -> bool {
    forall|i: int, j: int|
        0 <= i < j < networks.len() ==> (#[trigger] networks[i]).ssid != (
        #[trigger] networks[j]).ssid
}

proof fn name_position_is_first(networks: Seq<ScanView>, ssid: Seq<char>)
    ensures
        0 <= name_position(networks, ssid) <= networks.len(),
        name_position(networks, ssid) < networks.len() ==> networks[name_position(
            networks,
            ssid,
        )].ssid == ssid,
        forall|i: int|
            0 <= i < name_position(networks, ssid) ==> (#[trigger] networks[i]).ssid != ssid,
    decreases networks.len(),
{
    if networks.len() > 0 && networks[0].ssid != ssid {
        name_position_is_first(networks.skip(1), ssid);
        assert forall|i: int| 0 <= i < name_position(networks, ssid) implies (
        #[trigger] networks[i]).ssid != ssid by {
            if i > 0 {
                assert(networks[i] == networks.skip(1)[i - 1]);
            }
        }
    }
}

/// Merging a pass leaves every name once.
pub proof fn merging_keeps_names_different(networks: Seq<ScanView>, results: Seq<ScanView>)
    requires
        names_differ(networks),
    ensures
        names_differ(with_networks(networks, results)),
    decreases results.len(),
{
    if results.len() > 0 {
        let before = with_networks(networks, results.drop_last());
        merging_keeps_names_different(networks, results.drop_last());
        name_position_is_first(before, results.last().ssid);
    }
}

/// Whether a list knows a name with at least a given strength.
pub open spec fn knows(networks: Seq<ScanView>, ssid: Seq<char>, strength: i8) -> bool {
    exists|i: int|
        0 <= i < networks.len() && (#[trigger] networks[i]).ssid == ssid
            && networks[i].signal_strength >= strength
}

proof fn with_network_keeps(
    networks: Seq<ScanView>,
    network: ScanView,
    ssid: Seq<char>,
    strength: i8,
)
    requires
        knows(networks, ssid, strength) || (network.ssid == ssid && network.signal_strength
            >= strength),
    ensures
        knows(with_network(networks, network), ssid, strength),
{
    let after = with_network(networks, network);
    let at = name_position(networks, network.ssid);
    name_position_is_first(networks, network.ssid);
    if knows(networks, ssid, strength) {
        let i = choose|i: int|
            0 <= i < networks.len() && (#[trigger] networks[i]).ssid == ssid
                && networks[i].signal_strength >= strength;
        assert(after[i].ssid == ssid && after[i].signal_strength >= strength);
    } else if at < networks.len() {
        assert(after[at].ssid == ssid && after[at].signal_strength >= strength);
    } else {
        let last = after.len() - 1;
        assert(after[last].ssid == ssid && after[last].signal_strength >= strength);
    }
}

/// Merging a pass forgets no network and weakens no signal before the list is cut.
pub proof fn merging_keeps_the_strongest(
    networks: Seq<ScanView>,
    results: Seq<ScanView>,
    ssid: Seq<char>,
    strength: i8,
)
    requires
        knows(networks, ssid, strength) || knows(results, ssid, strength),
    ensures
        knows(with_networks(networks, results), ssid, strength),
    decreases results.len(),
{
    if results.len() > 0 {
        let shorter = results.drop_last();
        let last = results.last();
        if knows(networks, ssid, strength) || knows(shorter, ssid, strength) {
            merging_keeps_the_strongest(networks, shorter, ssid, strength);
        } else {
            let i = choose|i: int|
                0 <= i < results.len() && (#[trigger] results[i]).ssid == ssid
                    && results[i].signal_strength >= strength;
            if i < results.len() - 1 {
                assert(shorter[i] == results[i]);
            }
        }
        with_network_keeps(with_networks(networks, shorter), last, ssid, strength);
    }
}

/// A merged list is short, and its strongest signals come first.
pub proof fn merged_list_is_short_and_sorted(list: Seq<ScanView>, all: Seq<ScanView>)
    requires
        is_best_of(list, all),
    ensures
        list.len() <= MAX_SCAN_RESULTS,
        strongest_first(list),
{
    let sorted = choose|sorted: Seq<ScanView>|
        {
            &&& #[trigger] strongest_first(sorted)
            &&& sorted.to_multiset() == all.to_multiset()
            &&& list == if sorted.len() > MAX_SCAN_RESULTS {
                sorted.take(MAX_SCAN_RESULTS as int)
            } else {
                sorted
            }
        };
    assert forall|i: int, j: int| 0 <= i < j < list.len() implies (
    #[trigger] list[i]).signal_strength >= (#[trigger] list[j]).signal_strength by {
        assert(sorted[i].signal_strength >= sorted[j].signal_strength);
    }
}

/// Access points are taken for what they announce; all kinds of security but the four that the
/// radio can do are unsupported.
pub proof fn security_is_recognised(method: ScannedAuth)
    ensures
        scanned_auth(method).1 <==> method != ScannedAuth::Other,
        scanned_auth(method).0 == AuthKind::Open <==> method == ScannedAuth::Open,
        scanned_auth(method).0 == AuthKind::Wep <==> method == ScannedAuth::Wep,
        scanned_auth(method).0 == AuthKind::Wpa <==> method == ScannedAuth::Wpa,
        scanned_auth(method).0 == AuthKind::WpaWpa2 <==> method == ScannedAuth::WpaWpa2Personal,
        scanned_auth(method).0 == AuthKind::Wpa2 <==> method == ScannedAuth::Wpa2Personal || method
            == ScannedAuth::Other,
{
}

/// A pass tells of every access point with a name, in the order in which they came up, with its
/// name and strength; hidden ones are left out.
pub proof fn passes_tell_named_points(points: Seq<AccessPoint>, point: AccessPoint)
    ensures
        named_networks(Seq::empty()).len() == 0,
        point.ssid@.len() == 0 ==> named_networks(points.push(point)) == named_networks(points),
        point.ssid@.len() > 0 ==> {
            let list = named_networks(points.push(point));
            &&& list.len() == named_networks(points).len() + 1
            &&& list.drop_last() == named_networks(points)
            &&& list.last().ssid == point.ssid@
            &&& list.last().signal_strength == point.signal_strength
            &&& list.last().supported <==> point.auth != ScannedAuth::Other
            &&& list.last().auth == AuthKind::Open <==> point.auth == ScannedAuth::Open
        },
{
    assert(points.push(point).drop_last() =~= points);
    if point.ssid@.len() > 0 {
        assert(named_networks(points).push(network_of(point)).drop_last() =~= named_networks(
            points,
        ));
    }
}

/// Setting up the radio needs a name that fits and, unless the network is open, a password that
/// fits; the password of an open network does not matter.
pub proof fn setup_needs_fitting_credentials(
    auth: AuthKind,
    ssid_fits: bool,
    password_fits: bool,
    applied: bool,
)
    ensures
        configured(auth, false, password_fits, applied) == Err::<(), ConnectError>(
            ConnectError::InvalidCredentials,
        ),
        auth != AuthKind::Open ==> configured(auth, ssid_fits, false, applied) == Err::<
            (),
            ConnectError,
        >(ConnectError::InvalidCredentials),
        configured(auth, true, true, true) == Ok::<(), ConnectError>(()),
        configured(auth, true, true, false) == Err::<(), ConnectError>(ConnectError::Radio),
        configured(AuthKind::Open, ssid_fits, true, applied) == configured(
            AuthKind::Open,
            ssid_fits,
            false,
            applied,
        ),
{
}

/// A network that is found again stays at its place and gets the larger of the two strengths;
/// one that is new comes last. All others stay as they are.
pub proof fn found_again_keeps_its_place(networks: Seq<ScanView>, network: ScanView, at: int)
    requires
        0 <= at <= networks.len(),
        at < networks.len() ==> networks[at].ssid == network.ssid,
        forall|i: int| 0 <= i < at ==> (#[trigger] networks[i]).ssid != network.ssid,
    ensures
        ({
            let after = with_network(networks, network);
            &&& at == networks.len() ==> after == networks + seq![network]
            &&& at < networks.len() ==> {
                &&& after.len() == networks.len()
                &&& after[at].ssid == networks[at].ssid
                &&& after[at].auth == networks[at].auth
                &&& after[at].supported == networks[at].supported
                &&& after[at].signal_strength >= networks[at].signal_strength
                &&& after[at].signal_strength >= network.signal_strength
                &&& after[at].signal_strength == networks[at].signal_strength
                    || after[at].signal_strength == network.signal_strength
                &&& forall|i: int|
                    0 <= i < networks.len() && i != at ==> #[trigger] after[i] == networks[i]
            }
        }),
{
    name_position_found(networks, network.ssid, at);
    assert(networks.push(network) =~= networks + seq![network]);
}

/// The list that is shown has the eight strongest networks at most, strongest first, each of
/// them one that was found; up to eight are all shown.
pub proof fn list_shows_the_strongest(list: Seq<ScanView>, all: Seq<ScanView>)
    requires
        is_best_of(list, all),
    ensures
        list.len() == if all.len() <= 8 {
            all.len()
        } else {
            8
        },
        forall|i: int, j: int|
            0 <= i < j < list.len() ==> (#[trigger] list[i]).signal_strength >= (
            #[trigger] list[j]).signal_strength,
        all.len() <= 8 ==> list.to_multiset() == all.to_multiset(),
        exists|rest: Seq<ScanView>|
            {
                &&& #[trigger] (list + rest).to_multiset() == all.to_multiset()
                &&& forall|i: int, j: int|
                    0 <= i < list.len() && 0 <= j < rest.len() ==> (
                    #[trigger] list[i]).signal_strength >= (#[trigger] rest[j]).signal_strength
            },
{
    let sorted = choose|sorted: Seq<ScanView>|
        {
            &&& #[trigger] strongest_first(sorted)
            &&& sorted.to_multiset() == all.to_multiset()
            &&& list == if sorted.len() > MAX_SCAN_RESULTS {
                sorted.take(MAX_SCAN_RESULTS as int)
            } else {
                sorted
            }
        };
    sorted.to_multiset_ensures();
    all.to_multiset_ensures();
    let rest = if sorted.len() > 8 {
        sorted.skip(8)
    } else {
        Seq::empty()
    };
    assert(list + rest =~= sorted);
    assert forall|i: int, j: int| 0 <= i < list.len() && 0 <= j < rest.len() implies (
    #[trigger] list[i]).signal_strength >= (#[trigger] rest[j]).signal_strength by {
        assert(list[i] == sorted[i]);
        assert(rest[j] == sorted[j + 8]);
    }
}

} // verus!
