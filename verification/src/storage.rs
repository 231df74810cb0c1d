//! Configuration kept on the SD card (`RATPUTER/WIFI.CFG`, TOML) and the time
//! stamps of the FAT file system.

use crate::clock::{calendar, date_time, year_of_seconds};
use crate::text;
use vstd::prelude::*;
use vstd::string::*;
use vstd::utf8::*;

verus! {

pub const CONFIG_VERSION: u8 = 1;

pub const MAX_CONFIG_BYTES: usize = 4096;

pub const MAX_SAVED_NETWORKS: usize = 12;

#[derive(Clone, Copy, Debug, PartialEq, Eq, Structural)]
pub enum AuthKind {
    Open,
    Wep,
    Wpa,
    Wpa2,
    WpaWpa2,
}

impl Default for AuthKind {
    fn default() -> (kind: Self)
        ensures
            kind == AuthKind::Wpa2,
    {
        AuthKind::Wpa2
    }
}

#[derive(Debug)]
pub struct SavedNetwork {
    pub ssid: String,
    pub password: String,
    pub auth: AuthKind,
}

/// What a [`SavedNetwork`] holds.
#[verifier::ext_equal]
pub struct NetworkView {
    pub ssid: Seq<char>,
    pub password: Seq<char>,
    pub auth: AuthKind,
}

impl View for SavedNetwork {
    type V = NetworkView;

    open spec fn view(&self) -> NetworkView {
        NetworkView { ssid: self.ssid@, password: self.password@, auth: self.auth }
    }
}

impl Clone for SavedNetwork {
    fn clone(&self) -> (copy: Self)
        ensures
            copy@ == self@,
    {
        SavedNetwork {
            ssid: self.ssid.clone(),
            password: self.password.clone(),
            auth: self.auth,
        }
    }
}

/// Daylight-saving rule applied on top of the fixed UTC offset.
#[derive(Clone, Copy, Debug, PartialEq, Eq, Structural)]
pub enum DstRule {
    /// The offset is the same all year.
    Off,
    /// One hour more from the last Sunday of March to the last Sunday of
    /// October (01:00 UTC).
    Eu,
}

impl Default for DstRule {
    fn default() -> (rule: Self)
        ensures
            rule == DstRule::Eu,
    {
        DstRule::Eu
    }
}

#[derive(Debug)]
pub struct ClockConfig {
    pub utc_offset_minutes: i16,
    pub dst: DstRule,
    pub ntp_server: String,
}

// The defaults are those of Central European Time.
pub fn default_utc_offset_minutes() -> (minutes: i16)
    ensures
        minutes == 60,
        minutes == usable_offset(i16::MAX as int),
{
    60
}

pub fn default_ntp_server() -> (server: String)
    ensures
        server@ == "pool.ntp.org"@,
        server@ == usable_server(Seq::empty()),
{
    "pool.ntp.org".to_owned()
}

impl Default for ClockConfig {
    fn default() -> (config: Self)
        ensures
            config.utc_offset_minutes == 60,
            config.dst == DstRule::Eu,
            config.ntp_server@ == "pool.ntp.org"@,
    {
        ClockConfig {
            utc_offset_minutes: default_utc_offset_minutes(),
            dst: DstRule::default(),
            ntp_server: default_ntp_server(),
        }
    }
}

/// FTP server login. Shown on the FTP screen; the password can be changed there.
#[derive(Debug)]
pub struct FtpConfig {
    pub user: String,
    pub password: String,
}

pub fn default_ftp_user() -> (user: String)
    ensures
        user@ == "rat"@,
        user@ == usable_user(Seq::empty()),
{
    "rat".to_owned()
}

pub fn default_ftp_password() -> (password: String)
    ensures
        password@ == "cheese"@,
        password@ == usable_password(Seq::empty()),
{
    "cheese".to_owned()
}

impl Default for FtpConfig {
    fn default() -> (config: Self)
        ensures
            config.user@ == "rat"@,
            config.password@ == "cheese"@,
    {
        FtpConfig { user: default_ftp_user(), password: default_ftp_password() }
    }
}

/// 1 to 32 printable ASCII characters without spaces.
pub open spec fn is_credential(s: Seq<char>) -> bool {
    1 <= s.len() <= 32 && forall|i: int| 0 <= i < s.len() ==> text::is_graphic(#[trigger] s[i])
}

/// FTP credentials: 1-32 printable ASCII characters without spaces, so they can
/// be typed on the keyboard and shown in the pixel font.
pub fn valid_ftp_credential(value: &str) -> (valid: bool)
    ensures
        valid == is_credential(value@),
{
    let chars = text::chars_of(value);
    if chars.len() < 1 || chars.len() > 32 {
        return false;
    }
    let mut i: usize = 0;
    while i < chars.len()
        invariant
            i <= chars@.len(),
            chars@ == value@,
            forall|j: int| 0 <= j < i ==> text::is_graphic(#[trigger] chars@[j]),
        decreases chars@.len() - i,
    {
        let c = chars[i];
        if !('!' <= c && c <= '~') {
            assert(!text::is_graphic(value@[i as int]));
            return false;
        }
        i += 1;
    }
    true
}

/// A network that may stay in a configuration.
pub open spec fn is_saveable(network: NetworkView) -> bool {
    &&& 1 <= text::byte_len(network.ssid) <= 32
    &&& text::byte_len(network.password) <= 64
}

/// What a list of networks holds.
pub open spec fn networks_view(networks: Seq<SavedNetwork>) -> Seq<NetworkView> {
    networks.map_values(|network: SavedNetwork| network@)
}

/// The first place where a network of that name stands, or the length.
pub open spec fn ssid_position(networks: Seq<NetworkView>, ssid: Seq<char>) -> int
    decreases networks.len(),
{
    if networks.len() == 0 || networks[0].ssid == ssid {
        0
    } else {
        1 + ssid_position(networks.skip(1), ssid)
    }
}

/// The list after a network was saved: it replaces the one of its name, or else
/// joins at the end, where it pushes out the oldest of a full list.
pub open spec fn upserted(networks: Seq<NetworkView>, network: NetworkView) -> Seq<NetworkView> {
    let at = ssid_position(networks, network.ssid);
    if at < networks.len() {
        networks.update(at, network)
    } else if networks.len() == MAX_SAVED_NETWORKS {
        networks.skip(1).push(network)
    } else {
        networks.push(network)
    }
}

/// A list without the network at one place.
pub open spec fn without_network(networks: Seq<NetworkView>, index: int) -> Seq<NetworkView> {
    networks.remove(index)
}

/// An offset from UTC that there is, or that of central Europe.
pub open spec fn usable_offset(minutes: int) -> int {
    if -720 <= minutes <= 840 {
        minutes
    } else {
        60
    }
}

/// A time server whose name fits, or the usual one.
pub open spec fn usable_server(server: Seq<char>) -> Seq<char> {
    if 1 <= text::byte_len(server) <= 64 {
        server
    } else {
        "pool.ntp.org"@
    }
}

/// A user name that can be typed, or the usual one.
pub open spec fn usable_user(user: Seq<char>) -> Seq<char> {
    if is_credential(user) {
        user
    } else {
        "rat"@
    }
}

/// A password that can be typed, or the usual one.
pub open spec fn usable_password(password: Seq<char>) -> Seq<char> {
    if is_credential(password) {
        password
    } else {
        "cheese"@
    }
}

/// The networks that may stay, in their order.
pub open spec fn kept(networks: Seq<NetworkView>) -> Seq<NetworkView> {
    let valid = networks.filter(|network: NetworkView| is_saveable(network));
    if valid.len() > MAX_SAVED_NETWORKS {
        valid.take(MAX_SAVED_NETWORKS as int)
    } else {
        valid
    }
}

#[derive(Clone, Copy, Debug, PartialEq, Eq, Structural)]
pub enum StorageError {
    Sd,
    Missing,
    TooLarge,
    InvalidToml,
    UnsupportedVersion,
}

#[derive(Debug)]
pub struct WifiConfig {
    pub version: u8,
    pub clock: ClockConfig,
    pub ftp: FtpConfig,
    pub networks: Vec<SavedNetwork>,
}

impl Default for WifiConfig {
    fn default() -> (config: Self)
        ensures
            config.version == CONFIG_VERSION,
            config.networks@.len() == 0,
            config.clock.utc_offset_minutes == 60,
            config.clock.dst == DstRule::Eu,
            config.clock.ntp_server@ == "pool.ntp.org"@,
            config.ftp.user@ == "rat"@,
            config.ftp.password@ == "cheese"@,
    {
        WifiConfig {
            version: CONFIG_VERSION,
            clock: ClockConfig::default(),
            ftp: FtpConfig::default(),
            networks: Vec::new(),
        }
    }
}

impl WifiConfig {
    /// What every validated configuration keeps to.
    pub open spec fn is_valid(self) -> bool {
        &&& self.version == CONFIG_VERSION
        &&& self.networks@.len() <= MAX_SAVED_NETWORKS
        &&& forall|i: int|
            0 <= i < self.networks@.len() ==> is_saveable(#[trigger] networks_view(self.networks@)[i])
        &&& -720 <= self.clock.utc_offset_minutes <= 840
        &&& 1 <= text::byte_len(self.clock.ntp_server@) <= 64
        &&& is_credential(self.ftp.user@)
        &&& is_credential(self.ftp.password@)
    }

    /// Saves a network under its name.
    pub fn upsert(&mut self, network: SavedNetwork)
        ensures
            networks_view(final(self).networks@) == upserted(
                networks_view(old(self).networks@),
                network@,
            ),
            final(self).version == old(self).version,
            final(self).clock == old(self).clock,
            final(self).ftp == old(self).ftp,
    {
        let ghost before = networks_view(self.networks@);
        let mut i: usize = 0;
        while i < self.networks.len()
            invariant
                i <= self.networks@.len(),
                *self == *old(self),
                before == networks_view(self.networks@),
                forall|j: int| 0 <= j < i ==> (#[trigger] before[j]).ssid != network.ssid@,
            decreases self.networks@.len() - i,
        {
            assert(before[i as int] == self.networks@[i as int]@);
            if text::same_text(self.networks[i].ssid.as_str(), network.ssid.as_str()) {
                proof {
                    ssid_position_found(before, network.ssid@, i as int);
                }
                self.networks.set(i, network);
                assert(networks_view(self.networks@) =~= before.update(i as int, network@));
                return ;
            }
            i += 1;
        }
        proof {
            ssid_position_found(before, network.ssid@, before.len() as int);
        }
        if self.networks.len() == MAX_SAVED_NETWORKS {
            let _ = self.networks.remove(0);
            assert(networks_view(self.networks@) =~= before.skip(1));
        }
        let ghost shifted = networks_view(self.networks@);
        self.networks.push(network);
        assert(networks_view(self.networks@) =~= shifted.push(network@));
    }

    /// Forgets the network at a position; `false` where there is none.
    pub fn remove(&mut self, index: usize) -> (removed: bool)
        ensures
            removed == (index < old(self).networks@.len()),
            removed ==> networks_view(final(self).networks@) == without_network(
                networks_view(old(self).networks@),
                index as int,
            ) && final(self).networks@ == old(self).networks@.remove(index as int),
            !removed ==> final(self).networks@ == old(self).networks@,
            final(self).version == old(self).version,
            final(self).clock == old(self).clock,
            final(self).ftp == old(self).ftp,
    {
        if index >= self.networks.len() {
            return false;
        }
        let _ = self.networks.remove(index);
        true
    }

    /// Refuses a configuration of another version and repairs the rest: networks
    /// that cannot be used are dropped, other bad values give way to defaults.
    pub fn validate(self) -> (result: Result<Self, StorageError>)
        ensures
            result is Ok <==> self.version == CONFIG_VERSION,
            result matches Err(error) ==> error == StorageError::UnsupportedVersion,
            result matches Ok(config) ==> {
                &&& config.is_valid()
                &&& networks_view(config.networks@) == kept(networks_view(self.networks@))
                &&& config.clock.utc_offset_minutes == usable_offset(
                    self.clock.utc_offset_minutes as int,
                )
                &&& config.clock.dst == self.clock.dst
                &&& config.clock.ntp_server@ == usable_server(self.clock.ntp_server@)
                &&& config.ftp.user@ == usable_user(self.ftp.user@)
                &&& config.ftp.password@ == usable_password(self.ftp.password@)
            },
    {
        if self.version != CONFIG_VERSION {
            return Err(StorageError::UnsupportedVersion);
        }
        let mut config = self;
        let networks = retain_saveable(&config.networks);
        config.networks = networks;
        if !(-720 <= config.clock.utc_offset_minutes && config.clock.utc_offset_minutes <= 840) {
            config.clock.utc_offset_minutes = default_utc_offset_minutes();
        }
        let server_len: usize = text::byte_length(config.clock.ntp_server.as_str());
        if server_len == 0 || server_len > 64 {
            config.clock.ntp_server = default_ntp_server();
            proof {
                reveal_strlit("pool.ntp.org");
                is_ascii_chars_encode_utf8("pool.ntp.org"@);
            }
        }
        if !valid_ftp_credential(config.ftp.user.as_str()) {
            config.ftp.user = default_ftp_user();
            proof {
                reveal_strlit("rat");
            }
        }
        if !valid_ftp_credential(config.ftp.password.as_str()) {
            config.ftp.password = default_ftp_password();
            proof {
                reveal_strlit("cheese");
            }
        }
        Ok(config)
    }
}

/// The networks that may stay.
fn retain_saveable(networks: &Vec<SavedNetwork>) -> (out: Vec<SavedNetwork>)
    ensures
        networks_view(out@) == kept(networks_view(networks@)),
        out@.len() <= MAX_SAVED_NETWORKS,
        forall|i: int| 0 <= i < out@.len() ==> is_saveable(#[trigger] networks_view(out@)[i]),
{
    let mut out: Vec<SavedNetwork> = Vec::new();
    let ghost all = networks_view(networks@);
    let ghost test = |network: NetworkView| is_saveable(network);
    let mut i: usize = 0;
    while i < networks.len()
        invariant
            i <= networks@.len(),
            all == networks_view(networks@),
            test == (|network: NetworkView| is_saveable(network)),
            networks_view(out@) == all.take(i as int).filter(test),
        decreases networks@.len() - i,
    {
        let network = &networks[i];
        let ssid_len: usize = text::byte_length(network.ssid.as_str());
        let password_len: usize = text::byte_length(network.password.as_str());
        let ghost shorter = all.take(i as int);
        let ghost longer = all.take(i + 1);
        proof {
            assert(longer.drop_last() =~= shorter);
            assert(longer.last() == network@);
            reveal(Seq::filter);
        }
        if ssid_len != 0 && ssid_len <= 32 && password_len <= 64 {
            let ghost before = networks_view(out@);
            out.push(network.clone());
            assert(networks_view(out@) =~= before.push(network@));
        }
        i += 1;
    }
    assert(all.take(i as int) =~= all);
    let ghost valid = networks_view(out@);
    proof {
        all.lemma_filter_len(test);
        assert forall|j: int| 0 <= j < valid.len() implies is_saveable(#[trigger] valid[j]) by {
            all.lemma_filter_pred(test, j);
        }
    }
    if out.len() > MAX_SAVED_NETWORKS {
        out.truncate(MAX_SAVED_NETWORKS);
    }
    assert(networks_view(out@) =~= kept(all));
    assert forall|j: int| 0 <= j < out@.len() implies is_saveable(
        #[trigger] networks_view(out@)[j],
    ) by {
        assert(networks_view(out@)[j] == valid[j]);
    }
    out
}

/// A place where a name stands and before which it does not is the first one.
proof fn ssid_position_found(networks: Seq<NetworkView>, ssid: Seq<char>, at: int)
    requires
        0 <= at <= networks.len(),
        at < networks.len() ==> networks[at].ssid == ssid,
        forall|i: int| 0 <= i < at ==> (#[trigger] networks[i]).ssid != ssid,
    ensures
        ssid_position(networks, ssid) == at,
    decreases networks.len(),
{
    if networks.len() > 0 && at > 0 {
        assert(networks[0].ssid != ssid);
        assert forall|i: int| 0 <= i < at - 1 implies (#[trigger] networks.skip(1)[i]).ssid
            != ssid by {
            assert(networks.skip(1)[i] == networks[i + 1]);
        }
        ssid_position_found(networks.skip(1), ssid, at - 1);
    }
}

// ---------------------------------------------------------------------------
// Laws of the list of networks
// ---------------------------------------------------------------------------

/// No two networks of a list have the same name.
pub open spec fn names_differ(networks: Seq<NetworkView>) -> bool {
    forall|i: int, j: int|
        0 <= i < j < networks.len() ==> (#[trigger] networks[i]).ssid != (
        #[trigger] networks[j]).ssid
}

proof fn ssid_position_is_first(networks: Seq<NetworkView>, ssid: Seq<char>)
    ensures
        0 <= ssid_position(networks, ssid) <= networks.len(),
        ssid_position(networks, ssid) < networks.len() ==> networks[ssid_position(
            networks,
            ssid,
        )].ssid == ssid,
        forall|i: int|
            0 <= i < ssid_position(networks, ssid) ==> (#[trigger] networks[i]).ssid != ssid,
    decreases networks.len(),
{
    if networks.len() > 0 && networks[0].ssid != ssid {
        ssid_position_is_first(networks.skip(1), ssid);
        assert forall|i: int| 0 <= i < ssid_position(networks, ssid) implies (
        #[trigger] networks[i]).ssid != ssid by {
            if i > 0 {
                assert(networks[i] == networks.skip(1)[i - 1]);
            }
        }
    }
}

/// A saved network is in the list afterwards, a list within the limit stays
/// within it, and names that differ keep differing.
pub proof fn upsert_saves_the_network(networks: Seq<NetworkView>, network: NetworkView)
    ensures
        upserted(networks, network).contains(network),
        networks.len() <= MAX_SAVED_NETWORKS ==> upserted(networks, network).len()
            <= MAX_SAVED_NETWORKS,
        names_differ(networks) ==> names_differ(upserted(networks, network)),
{
    let at = ssid_position(networks, network.ssid);
    let after = upserted(networks, network);
    ssid_position_is_first(networks, network.ssid);
    if at < networks.len() {
        assert(after[at] == network);
    } else {
        assert(after[after.len() - 1] == network);
    }
}

/// Saving a network drops no other one, but the oldest of a full list.
pub proof fn upsert_keeps_the_others(networks: Seq<NetworkView>, network: NetworkView, i: int)
    requires
        0 <= i < networks.len(),
        networks[i].ssid != network.ssid,
        i > 0 || networks.len() != MAX_SAVED_NETWORKS || ssid_position(networks, network.ssid)
            < networks.len(),
    ensures
        upserted(networks, network).contains(networks[i]),
{
    let at = ssid_position(networks, network.ssid);
    let after = upserted(networks, network);
    ssid_position_is_first(networks, network.ssid);
    if at < networks.len() {
        assert(after[i] == networks[i]);
    } else if networks.len() == MAX_SAVED_NETWORKS {
        assert(after[i - 1] == networks[i]);
    } else {
        assert(after[i] == networks[i]);
    }
}

/// Saving the same network a second time changes nothing.
pub proof fn upsert_twice_is_once(networks: Seq<NetworkView>, network: NetworkView)
    ensures
        upserted(upserted(networks, network), network) == upserted(networks, network),
{
    let at = ssid_position(networks, network.ssid);
    let after = upserted(networks, network);
    ssid_position_is_first(networks, network.ssid);
    if at < networks.len() {
        assert forall|i: int| 0 <= i < at implies (#[trigger] after[i]).ssid != network.ssid by {
            assert(after[i] == networks[i]);
        }
        ssid_position_found(after, network.ssid, at);
        assert(after.update(at, network) =~= after);
    } else {
        let last = after.len() - 1;
        assert forall|i: int| 0 <= i < last implies (#[trigger] after[i]).ssid != network.ssid by {
            if networks.len() == MAX_SAVED_NETWORKS {
                assert(after[i] == networks[i + 1]);
            } else {
                assert(after[i] == networks[i]);
            }
        }
        ssid_position_found(after, network.ssid, last);
        assert(after.update(last, network) =~= after);
    }
}

/// A list of networks such as a valid configuration has.
pub open spec fn is_valid_list(networks: Seq<NetworkView>) -> bool {
    &&& networks.len() <= MAX_SAVED_NETWORKS
    &&& forall|i: int| 0 <= i < networks.len() ==> is_saveable(#[trigger] networks[i])
}

/// Saving a network that may be saved and forgetting one keep a valid list valid.
pub proof fn changes_keep_the_list_valid(
    networks: Seq<NetworkView>,
    network: NetworkView,
    index: int,
)
    requires
        is_valid_list(networks),
        is_saveable(network),
        0 <= index < networks.len(),
    ensures
        is_valid_list(upserted(networks, network)),
        is_valid_list(networks.remove(index)),
{
    ssid_position_is_first(networks, network.ssid);
    upsert_saves_the_network(networks, network);
}

/// Validating a valid list changes nothing, so that validating twice is validating
/// once.
pub proof fn valid_list_is_kept(networks: Seq<NetworkView>)
    requires
        is_valid_list(networks),
    ensures
        kept(networks) == networks,
    decreases networks.len(),
{
    reveal(Seq::filter);
    if networks.len() > 0 {
        let front = networks.drop_last();
        assert forall|i: int| 0 <= i < front.len() implies is_saveable(#[trigger] front[i]) by {
            assert(front[i] == networks[i]);
        }
        valid_list_is_kept(front);
        assert(is_saveable(networks[networks.len() - 1]));
        assert(front.push(networks.last()) =~= networks);
    }
}

// ---------------------------------------------------------------------------
// Reading and writing the configuration file
// ---------------------------------------------------------------------------

/// What reading the configuration file waits for.
#[derive(Clone, Copy, Debug, PartialEq, Eq, Structural)]
pub enum LoadStage {
    /// The configuration directory is being opened.
    Directory,
    /// The configuration file in it is being opened.
    File,
    /// Parts of the file are coming in.
    Content,
    Finished,
    Failed(StorageError),
}

/// The stage and what was collected after another part of the file: an empty one
/// is its end, none a failed read.
pub open spec fn read_next(stage: LoadStage, bytes: Seq<u8>, part: Option<Seq<u8>>) -> (
    LoadStage,
    Seq<u8>,
) {
    match (stage, part) {
        (LoadStage::Content, None) => (LoadStage::Failed(StorageError::Sd), bytes),
        (LoadStage::Content, Some(part)) => if part.len() == 0 {
            (LoadStage::Finished, bytes)
        } else if bytes.len() + part.len() > MAX_CONFIG_BYTES {
            (LoadStage::Failed(StorageError::TooLarge), bytes)
        } else {
            (LoadStage::Content, bytes + part)
        },
        _ => (stage, bytes),
    }
}

/// The stage after the directory or the file was opened, or could not be.
pub open spec fn opened_next(stage: LoadStage, success: bool) -> LoadStage {
    match stage {
        LoadStage::Directory => if success {
            LoadStage::File
        } else {
            LoadStage::Failed(StorageError::Missing)
        },
        LoadStage::File => if success {
            LoadStage::Content
        } else {
            LoadStage::Failed(StorageError::Missing)
        },
        other => other,
    }
}

/// The text of a file that was read, or why there is none.
pub open spec fn loaded_text(stage: LoadStage, bytes: Seq<u8>) -> Result<Seq<char>, StorageError> {
    match stage {
        LoadStage::Failed(error) => Err(error),
        LoadStage::Finished => if valid_utf8(bytes) {
            Ok(decode_utf8(bytes))
        } else {
            Err(StorageError::InvalidToml)
        },
        _ => Err(StorageError::Sd),
    }
}

/// Collects the configuration file.
pub struct ConfigLoad {
    pub stage: LoadStage,
    pub bytes: Vec<u8>,
}

impl ConfigLoad {
    pub fn new() -> (load: Self)
        ensures
            load.stage == LoadStage::Directory,
            load.bytes@.len() == 0,
    {
        ConfigLoad { stage: LoadStage::Directory, bytes: Vec::new() }
    }

    /// The directory or the file was opened, or could not be.
    pub fn opened(&mut self, success: bool)
        ensures
            final(self).bytes == old(self).bytes,
            final(self).stage == opened_next(old(self).stage, success),
    {
        match self.stage {
            LoadStage::Directory => {
                self.stage = if success {
                    LoadStage::File
                } else {
                    LoadStage::Failed(StorageError::Missing)
                };
            },
            LoadStage::File => {
                self.stage = if success {
                    LoadStage::Content
                } else {
                    LoadStage::Failed(StorageError::Missing)
                };
            },
            _ => {},
        }
    }

    /// A part of the file came in: an empty one is its end, none a failed read.
    pub fn read(&mut self, part: Option<&[u8]>)
        requires
            old(self).bytes@.len() <= MAX_CONFIG_BYTES,
        ensures
            (final(self).stage, final(self).bytes@) == read_next(
                old(self).stage,
                old(self).bytes@,
                match part {
                    Some(part) => Some(part@),
                    None => None,
                },
            ),
            final(self).bytes@.len() <= MAX_CONFIG_BYTES,
    {
        if let LoadStage::Content = self.stage {
            match part {
                None => {
                    self.stage = LoadStage::Failed(StorageError::Sd);
                },
                Some(part) => {
                    if part.len() == 0 {
                        self.stage = LoadStage::Finished;
                    } else if part.len() > MAX_CONFIG_BYTES - self.bytes.len() {
                        self.stage = LoadStage::Failed(StorageError::TooLarge);
                    } else {
                        self.bytes.extend_from_slice(part);
                    }
                },
            }
        }
    }

    /// The text of the file, to be parsed, or why there is none. A file that was not
    /// read to its end has none either.
    pub fn text(&self) -> (result: Result<String, StorageError>)
        ensures
            match loaded_text(self.stage, self.bytes@) {
                Ok(wanted) => result matches Ok(content) && content@ == wanted && encode_utf8(
                    content@,
                ) == self.bytes@,
                Err(wanted) => result matches Err(error) && error == wanted,
            },
            result is Ok <==> self.stage is Finished && valid_utf8(self.bytes@),
    {
        match self.stage {
            LoadStage::Failed(error) => {
                return Err(error);
            },
            LoadStage::Finished => {},
            _ => {
                return Err(StorageError::Sd);
            },
        }
        match text::utf8_text(self.bytes.as_slice()) {
            Some(content) => {
                proof {
                    encode_utf8_decode_utf8(content@);
                }
                Ok(content.to_owned())
            },
            None => Err(StorageError::InvalidToml),
        }
    }
}

/// The stage and what was collected after some parts of the file.
pub open spec fn read_all(stage: LoadStage, bytes: Seq<u8>, parts: Seq<Seq<u8>>) -> (
    LoadStage,
    Seq<u8>,
)
    decreases parts.len(),
{
    if parts.len() == 0 {
        (stage, bytes)
    } else {
        let before = read_all(stage, bytes, parts.drop_last());
        read_next(before.0, before.1, Some(parts.last()))
    }
}

/// Parts of a file that is not too large are all collected, in their order.
proof fn parts_are_collected(parts: Seq<Seq<u8>>)
    requires
        forall|i: int| 0 <= i < parts.len() ==> (#[trigger] parts[i]).len() > 0,
        parts.flatten().len() <= MAX_CONFIG_BYTES,
    ensures
        read_all(LoadStage::Content, Seq::empty(), parts) == (LoadStage::Content, parts.flatten()),
    decreases parts.len(),
{
    if parts.len() > 0 {
        let front = parts.drop_last();
        parts.lemma_flatten_and_flatten_alt_are_equivalent();
        front.lemma_flatten_and_flatten_alt_are_equivalent();
        assert(parts.flatten() == front.flatten() + parts.last());
        assert forall|i: int| 0 <= i < front.len() implies (#[trigger] front[i]).len() > 0 by {
            assert(front[i] == parts[i]);
        }
        parts_are_collected(front);
    } else {
        assert(parts.flatten() =~= Seq::<u8>::empty());
    }
}

/// A configuration text that may be written is read back, in whatever parts it
/// comes: at the end of the file the loader holds the bytes of that text, and of no
/// other.
pub proof fn written_text_is_read_back(content: Seq<char>, parts: Seq<Seq<u8>>)
    requires
        text::byte_len(content) <= MAX_CONFIG_BYTES,
        forall|i: int| 0 <= i < parts.len() ==> (#[trigger] parts[i]).len() > 0,
        parts.flatten() == encode_utf8(content),
    ensures
        read_all(LoadStage::Content, Seq::empty(), parts.push(Seq::empty())) == (
            LoadStage::Finished,
            encode_utf8(content),
        ),
        forall|other: Seq<char>| #[trigger] encode_utf8(other) == encode_utf8(content) ==> other
            == content,
{
    parts_are_collected(parts);
    assert(parts.push(Seq::empty()).drop_last() =~= parts);
    encode_utf8_decode_utf8(content);
    assert forall|other: Seq<char>| #[trigger]
        encode_utf8(other) == encode_utf8(content) implies other == content by {
        encode_utf8_decode_utf8(other);
    }
}

/// What writing the configuration file waits for.
#[derive(Clone, Copy, Debug, PartialEq, Eq, Structural)]
pub enum SaveStage {
    /// The configuration directory is being opened.
    OpenDirectory,
    /// There is none: it is being created.
    CreateDirectory,
    /// The configuration file is being looked up.
    FindFile,
    /// There is none: it is being created.
    CreateFile,
    /// Its content is being written.
    Write,
    Finished,
    Failed(StorageError),
}

/// What became of a step of writing the configuration file.
#[derive(Clone, Copy, Debug, PartialEq, Eq, Structural)]
pub enum SaveEvent {
    Done,
    /// The lookup succeeded and found no file of that name.
    Absent,
    Error,
}

/// The first stage of a save.
pub open spec fn save_first(content: Seq<char>) -> SaveStage {
    if text::byte_len(content) > MAX_CONFIG_BYTES {
        SaveStage::Failed(StorageError::TooLarge)
    } else {
        SaveStage::OpenDirectory
    }
}

/// The first stage of writing a configuration text: one that is too large is
/// not written at all.
pub fn save_start(content: &str) -> (stage: SaveStage)
    ensures
        stage == save_first(content@),
{
    if text::byte_length(content) > MAX_CONFIG_BYTES {
        SaveStage::Failed(StorageError::TooLarge)
    } else {
        SaveStage::OpenDirectory
    }
}

/// The stage that follows a step: a directory or a file that is not there is
/// created, everything else that goes wrong is the card's fault.
pub open spec fn save_next(stage: SaveStage, event: SaveEvent) -> SaveStage {
    match (stage, event) {
        (SaveStage::Finished, _) | (SaveStage::Failed(_), _) => stage,
        (SaveStage::OpenDirectory, SaveEvent::Done) => SaveStage::FindFile,
        (SaveStage::OpenDirectory, _) => SaveStage::CreateDirectory,
        (SaveStage::CreateDirectory, SaveEvent::Done) => SaveStage::FindFile,
        (SaveStage::FindFile, SaveEvent::Done) => SaveStage::Write,
        (SaveStage::FindFile, SaveEvent::Absent) => SaveStage::CreateFile,
        (SaveStage::CreateFile, SaveEvent::Done) => SaveStage::Write,
        (SaveStage::Write, SaveEvent::Done) => SaveStage::Finished,
        _ => SaveStage::Failed(StorageError::Sd),
    }
}

/// The stage that follows a step.
pub fn save_step(stage: SaveStage, event: SaveEvent) -> (next: SaveStage)
    ensures
        next == save_next(stage, event),
{
    match (stage, event) {
        (SaveStage::Finished, _) | (SaveStage::Failed(_), _) => stage,
        (SaveStage::OpenDirectory, SaveEvent::Done) => SaveStage::FindFile,
        (SaveStage::OpenDirectory, _) => SaveStage::CreateDirectory,
        (SaveStage::CreateDirectory, SaveEvent::Done) => SaveStage::FindFile,
        (SaveStage::FindFile, SaveEvent::Done) => SaveStage::Write,
        (SaveStage::FindFile, SaveEvent::Absent) => SaveStage::CreateFile,
        (SaveStage::CreateFile, SaveEvent::Done) => SaveStage::Write,
        (SaveStage::Write, SaveEvent::Done) => SaveStage::Finished,
        _ => SaveStage::Failed(StorageError::Sd),
    }
}

// ---------------------------------------------------------------------------
// Local time and FAT time stamps
// ---------------------------------------------------------------------------

/// Local wall-clock time for FAT time stamps, published once the clock has
/// synced (seconds since 1970-01-01 local time; 0 = not synced yet).
#[derive(Clone, Copy, Debug, PartialEq, Eq, Structural)]
pub struct LocalTime {
    pub seconds: u32,
}

impl LocalTime {
    /// The published time, if there is one.
    pub open spec fn now(self) -> Option<int> {
        if self.seconds == 0 {
            None
        } else {
            Some(self.seconds as int)
        }
    }
}

impl Default for LocalTime {
    fn default() -> (local: Self)
        ensures
            local.seconds == 0,
    {
        LocalTime { seconds: 0 }
    }
}

/// The seconds that a local time keeps: none before 1970, and no more than 32 bits of them.
pub open spec fn kept_seconds(local_seconds: int) -> int {
    if local_seconds < 0 {
        0
    } else if local_seconds > u32::MAX {
        u32::MAX as int
    } else {
        local_seconds
    }
}

/// Publishes the local time, clamped to what a time stamp can hold.
pub fn set_local_time(local: &mut LocalTime, local_seconds: i64)
    ensures
        final(local).seconds == kept_seconds(local_seconds as int),
{
    local.seconds = if local_seconds < 0 {
        0
    } else if local_seconds > 0xffff_ffff {
        0xffff_ffff
    } else {
        local_seconds as u32
    };
}

/// Last published local time (`None` = no sync yet).
pub fn local_now_seconds(local: &LocalTime) -> (now: Option<i64>)
    ensures
        match local.now() {
            Some(seconds) => now == Some(seconds as i64) && 0 < seconds <= u32::MAX,
            None => now is None,
        },
{
    if local.seconds != 0 {
        Some(local.seconds as i64)
    } else {
        None
    }
}

/// FAT date and time: a date from 1980 to 2107 and a time of day in steps of two
/// seconds.
#[derive(Clone, Copy, Debug, PartialEq, Eq, Structural)]
pub struct FatDateTime {
    /// Date: seven bits of years since 1980, four of the month, five of the day.
    pub date: u16,
    /// Time: five bits of the hour, six of the minute, five of the seconds in
    /// pairs.
    pub time: u16,
    /// Units of 10 ms (0-199) for creation times.
    pub time_tenth: u8,
}

impl FatDateTime {
    pub open spec fn year(self) -> int {
        self.date as int / 512 + 1980
    }

    pub open spec fn month(self) -> int {
        self.date as int / 32 % 16
    }

    pub open spec fn day(self) -> int {
        self.date as int % 32
    }

    pub open spec fn hour(self) -> int {
        self.time as int / 2048
    }

    pub open spec fn minute(self) -> int {
        self.time as int / 32 % 64
    }

    pub open spec fn second(self) -> int {
        self.time as int % 32 * 2
    }

    /// The stamp of a date and a time of day, as far as its fields reach.
    pub open spec fn holds(
        self,
        year: int,
        month: int,
        day: int,
        hour: int,
        minute: int,
        second: int,
    ) -> bool {
        &&& self.year() == if year < 1980 {
            1980
        } else if year > 2107 {
            2107
        } else {
            year
        }
        &&& self.month() == month % 16
        &&& self.day() == day % 32
        &&& self.hour() == hour % 32
        &&& self.minute() == minute % 64
        &&& self.second() == second / 2 % 32 * 2
        &&& self.time_tenth == 0
    }

    /// The stamp of what is written at a local time; a clock that was never set has a date of
    /// its own.
    pub open spec fn is_of(self, local: LocalTime) -> bool {
        &&& match local.now() {
            None => self.year() == 2026 && self.month() == 1 && self.day() == 1 && self.hour() == 0
                && self.minute() == 0 && self.second() == 0,
            Some(seconds) => {
                let time = calendar(seconds);
                &&& self.year() == if time.year < 1980 {
                    1980
                } else {
                    time.year as int
                }
                &&& self.month() == time.month
                &&& self.day() == time.day
                &&& self.hour() == time.hour
                &&& self.minute() == time.minute
                &&& self.second() == time.second / 2 * 2
            },
        }
        &&& self.time_tenth == 0
    }

    /// A time stamp from calendar fields. Years outside 1980 to 2107 are clamped;
    /// the other fields keep as many bits as the stamp has for them.
    pub fn new(year: u16, month: u8, day: u8, hour: u8, minute: u8, second: u8) -> (stamp: Self)
        ensures
            stamp.holds(
                year as int,
                month as int,
                day as int,
                hour as int,
                minute as int,
                second as int,
            ),
    {
        let years: u16 = if year < 1980 {
            0
        } else if year > 2107 {
            127
        } else {
            year - 1980
        };
        let month: u16 = (month % 16) as u16;
        let day: u16 = (day % 32) as u16;
        let hour: u16 = (hour % 32) as u16;
        let minute: u16 = (minute % 64) as u16;
        let pairs: u16 = (second / 2 % 32) as u16;
        proof {
            packed_fields(years as int, month as int, day as int, 16);
            packed_fields(hour as int, minute as int, pairs as int, 64);
        }
        let date: u16 = years * 512 + month * 32 + day;
        let time: u16 = hour * 2048 + minute * 32 + pairs;
        FatDateTime { date, time, time_tenth: 0 }
    }

    /// The raw on-disk triple `(date, time, time_tenth)`.
    pub fn to_raw(&self) -> (raw: (u16, u16, u8))
        ensures
            raw == (self.date, self.time, self.time_tenth),
    {
        (self.date, self.time, self.time_tenth)
    }

    /// The time stamp of a raw on-disk triple.
    pub fn from_raw(date: u16, time: u16, time_tenth: u8) -> (stamp: Self)
        ensures
            stamp == (FatDateTime { date, time, time_tenth }),
    {
        FatDateTime { date, time, time_tenth }
    }
}

/// Three numbers packed side by side can be read back.
#[verifier::spinoff_prover]
proof fn packed_fields(high: int, middle: int, low: int, width: int)
    requires
        width == 16 || width == 64,
        0 <= high,
        0 <= middle < width,
        0 <= low < 32,
    ensures
        width == 16 ==> {
            let packed = high * 512 + middle * 32 + low;
            packed / 512 == high && packed / 32 % 16 == middle && packed % 32 == low
        },
        width == 64 ==> {
            let packed = high * 2048 + middle * 32 + low;
            packed / 2048 == high && packed / 32 % 64 == middle && packed % 32 == low
        },
{
    if width == 16 {
        let packed = high * 512 + middle * 32 + low;
        assert(packed / 32 == high * 16 + middle);
    } else {
        let packed = high * 2048 + middle * 32 + low;
        assert(packed / 32 == high * 64 + middle);
    }
}

/// FAT time stamps of new files: current local time after the sync, otherwise a
/// fixed 2026-01-01 so uploads still get a sane, monotonic date.
#[derive(Clone, Copy, Debug)]
pub struct FatClock {
    pub local: LocalTime,
}

impl FatClock {
    pub fn now(&self) -> (stamp: FatDateTime)
        ensures
            stamp.is_of(self.local),
    {
        if self.local.seconds == 0 {
            return FatDateTime::new(2026, 1, 1, 0, 0, 0);
        }
        let time = date_time(self.local.seconds as i64);
        proof {
            year_of_seconds(time);
        }
        FatDateTime::new(
            time.year as u16,
            time.month as u8,
            time.day as u8,
            time.hour as u8,
            time.minute as u8,
            time.second as u8,
        )
    }
}

/// Calendar fields as `YYYYMMDDHHMMSS`.
pub open spec fn stamp_text(
    year: nat,
    month: nat,
    day: nat,
    hour: nat,
    minute: nat,
    second: nat,
) -> Seq<char> {
    text::zero_padded(year, 4) + text::zero_padded(month, 2) + text::zero_padded(day, 2)
        + text::zero_padded(hour, 2) + text::zero_padded(minute, 2) + text::zero_padded(second, 2)
}

/// Calendar fields as `YYYYMMDDHHMMSS`.
pub fn format_stamp(year: u64, month: u64, day: u64, hour: u64, minute: u64, second: u64) -> (out:
    String)
    ensures
        out@ == stamp_text(
            year as nat,
            month as nat,
            day as nat,
            hour as nat,
            minute as nat,
            second as nat,
        ),
{
    let mut out = text::zero_pad(year, 4);
    let month = text::zero_pad(month, 2);
    out.append(month.as_str());
    let day = text::zero_pad(day, 2);
    out.append(day.as_str());
    let hour = text::zero_pad(hour, 2);
    out.append(hour.as_str());
    let minute = text::zero_pad(minute, 2);
    out.append(minute.as_str());
    let second = text::zero_pad(second, 2);
    out.append(second.as_str());
    out
}

/// A FAT time stamp as `YYYYMMDDHHMMSS`.
pub fn fmt_fat_mtime(date: FatDateTime) -> (out: String)
    ensures
        out@ == stamp_text(
            date.year() as nat,
            date.month() as nat,
            date.day() as nat,
            date.hour() as nat,
            date.minute() as nat,
            date.second() as nat,
        ),
{
    let (raw_date, raw_time, _) = date.to_raw();
    format_stamp(
        (raw_date / 512) as u64 + 1980,
        (raw_date / 32 % 16) as u64,
        (raw_date % 32) as u64,
        (raw_time / 2048) as u64,
        (raw_time / 32 % 64) as u64,
        (raw_time % 32) as u64 * 2,
    )
}

/// A published local time as `YYYYMMDDHHMMSS`; 1980-01-01 where there is none.
pub open spec fn now_text(local: LocalTime) -> Seq<char> {
    match local.now() {
        None => "19800101000000"@,
        Some(seconds) => {
            let time = calendar(seconds);
            stamp_text(
                time.year as nat,
                time.month as nat,
                time.day as nat,
                time.hour as nat,
                time.minute as nat,
                time.second as nat,
            )
        },
    }
}

/// Current local time for listings, 1980-01-01 before the sync.
pub fn now_ymdhms(local: &LocalTime) -> (out: String)
    ensures
        out@ == now_text(*local),
{
    match local_now_seconds(local) {
        Some(now) => {
            let time = date_time(now);
            proof {
                year_of_seconds(time);
            }
            format_stamp(
                time.year as u64,
                time.month as u64,
                time.day as u64,
                time.hour as u64,
                time.minute as u64,
                time.second as u64,
            )
        },
        None => "19800101000000".to_owned(),
    }
}

// ---------------------------------------------------------------------------
// Laws of the configuration and of time stamps
// ---------------------------------------------------------------------------

/// Where a network that is saved comes to stand: in the place of the one of its name, with the
/// others unchanged; or behind the others, of which the first gives way where there are twelve.
pub proof fn saved_network_has_its_place(
    networks: Seq<NetworkView>,
    network: NetworkView,
    at: int,
)
    ensures
        0 <= at < networks.len() && networks[at].ssid == network.ssid && (forall|i: int|
            0 <= i < at ==> (#[trigger] networks[i]).ssid != network.ssid) ==> {
            let after = upserted(networks, network);
            &&& after.len() == networks.len()
            &&& after[at] == network
            &&& forall|i: int|
                0 <= i < networks.len() && i != at ==> #[trigger] after[i] == networks[i]
        },
        (forall|i: int| 0 <= i < networks.len() ==> (#[trigger] networks[i]).ssid != network.ssid)
            ==> {
            let after = upserted(networks, network);
            let kept_from = if networks.len() == 12 {
                1int
            } else {
                0int
            };
            after == networks.skip(kept_from) + seq![network]
        },
{
    ssid_position_is_first(networks, network.ssid);
    let found = ssid_position(networks, network.ssid);
    if 0 <= at < networks.len() && networks[at].ssid == network.ssid && (forall|i: int|
        0 <= i < at ==> (#[trigger] networks[i]).ssid != network.ssid) {
        ssid_position_found(networks, network.ssid, at);
    }
    if found == networks.len() {
        assert(networks.skip(0) =~= networks);
        assert(networks.push(network) =~= networks.skip(0) + seq![network]);
        assert(networks.skip(1).push(network) =~= networks.skip(1) + seq![network]);
    }
}

/// What may be saved: a name of one to 32 bytes and a password of at most 64.
pub proof fn saveable_networks_fit(network: NetworkView)
    ensures
        is_saveable(network) <==> encode_utf8(network.ssid).len() >= 1 && encode_utf8(
            network.ssid,
        ).len() <= 32 && encode_utf8(network.password).len() <= 64,
{
}

/// Reading a list keeps what may be saved, one after another, until there are twelve.
pub proof fn lists_are_kept_in_order(networks: Seq<NetworkView>, network: NetworkView)
    ensures
        kept(Seq::empty()) == Seq::<NetworkView>::empty(),
        kept(networks).len() <= 12,
        kept(networks.push(network)) == if is_saveable(network) && kept(networks).len() < 12 {
            kept(networks).push(network)
        } else {
            kept(networks)
        },
{
    reveal(Seq::filter);
    let may = |network: NetworkView| is_saveable(network);
    let front = networks.filter(may);
    let all = networks.push(network).filter(may);
    assert(networks.push(network).drop_last() =~= networks);
    assert(all == if is_saveable(network) {
        front.push(network)
    } else {
        front
    });
    assert(Seq::<NetworkView>::empty().filter(may) =~= Seq::<NetworkView>::empty());
    if front.len() >= 12 {
        assert(all.take(12) =~= front.take(12));
    }
    if front.len() == 12 {
        assert(front.take(12) =~= front);
    }
}

/// A name or a password for FTP: one to 32 characters from `!` to `~`.
pub proof fn credentials_can_be_typed(s: Seq<char>)
    ensures
        is_credential(s) <==> s.len() >= 1 && s.len() <= 32 && forall|i: int|
            0 <= i < s.len() ==> 33 <= (#[trigger] s[i]) as int <= 126,
{
    if is_credential(s) {
        assert forall|i: int| 0 <= i < s.len() implies 33 <= (#[trigger] s[i]) as int <= 126 by {
            assert(text::is_graphic(s[i]));
        }
    }
    if forall|i: int| 0 <= i < s.len() ==> 33 <= (#[trigger] s[i]) as int <= 126 {
        assert forall|i: int| 0 <= i < s.len() implies text::is_graphic(#[trigger] s[i]) by {
            assert(33 <= s[i] as int <= 126);
        }
    }
}

/// A configuration file is read until it ends, up to 4096 bytes; what is longer is too large,
/// and a part that cannot be read is the card's fault. What was decided stays.
pub proof fn files_are_read_to_their_end(bytes: Seq<u8>, part: Seq<u8>, done: LoadStage)
    requires
        done is Finished || done is Failed,
    ensures
        part.len() > 0 && bytes.len() + part.len() <= 4096 ==> read_next(
            LoadStage::Content,
            bytes,
            Some(part),
        ) == (LoadStage::Content, bytes + part),
        part.len() > 0 && bytes.len() + part.len() > 4096 ==> read_next(
            LoadStage::Content,
            bytes,
            Some(part),
        ).0 == LoadStage::Failed(StorageError::TooLarge),
        part.len() == 0 ==> read_next(LoadStage::Content, bytes, Some(part)) == (
            LoadStage::Finished,
            bytes,
        ),
        read_next(LoadStage::Content, bytes, None).0 == LoadStage::Failed(StorageError::Sd),
        read_next(done, bytes, Some(part)) == (done, bytes),
{
}

/// The stage of a save after some steps.
pub open spec fn saved_after(stage: SaveStage, events: Seq<SaveEvent>) -> SaveStage
    decreases events.len(),
{
    if events.len() == 0 {
        stage
    } else {
        save_next(saved_after(stage, events.drop_last()), events.last())
    }
}

/// A save is finished only by a write that was done, and never goes back: what is finished or
/// has failed stays so.
pub proof fn saves_end_with_the_write(stage: SaveStage, event: SaveEvent)
    ensures
        save_next(stage, event) == SaveStage::Finished && stage != SaveStage::Finished ==> stage
            == SaveStage::Write && event == SaveEvent::Done,
        save_next(stage, event) == SaveStage::Write ==> event == SaveEvent::Done && (stage
            == SaveStage::FindFile || stage == SaveStage::CreateFile),
        stage is Finished || stage is Failed ==> save_next(stage, event) == stage,
        !(stage is Failed) ==> (save_next(stage, event) matches SaveStage::Failed(error) ==> error
            == StorageError::Sd && event != SaveEvent::Done),
{
}

/// A save after which the card is asked for nothing more has written its file: some step of it
/// was a write that was done.
pub proof fn finished_saves_have_written(events: Seq<SaveEvent>)
    requires
        saved_after(SaveStage::OpenDirectory, events) == SaveStage::Finished,
    ensures
        exists|i: int|
            0 <= i < events.len() && #[trigger] events[i] == SaveEvent::Done && saved_after(
                SaveStage::OpenDirectory,
                events.take(i),
            ) == SaveStage::Write,
    decreases events.len(),
{
    let front = events.drop_last();
    let before = saved_after(SaveStage::OpenDirectory, front);
    saves_end_with_the_write(before, events.last());
    if before == SaveStage::Finished {
        finished_saves_have_written(front);
        let i = choose|i: int|
            0 <= i < front.len() && #[trigger] front[i] == SaveEvent::Done && saved_after(
                SaveStage::OpenDirectory,
                front.take(i),
            ) == SaveStage::Write;
        assert(events[i] == front[i]);
        assert(events.take(i) =~= front.take(i));
    } else {
        let last = events.len() - 1;
        assert(events[last] == SaveEvent::Done);
        assert(events.take(last) =~= front);
    }
}

/// Where the card does what it is asked, a save comes to its end: over what is there, or over
/// what is made where it was missing.
pub proof fn saves_come_to_their_end(made_dir: bool, made_file: bool)
    ensures
        ({
            let found = if made_dir {
                save_next(
                    save_next(SaveStage::OpenDirectory, SaveEvent::Error),
                    SaveEvent::Done,
                )
            } else {
                save_next(SaveStage::OpenDirectory, SaveEvent::Done)
            };
            let ready = if made_file {
                save_next(save_next(found, SaveEvent::Absent), SaveEvent::Done)
            } else {
                save_next(found, SaveEvent::Done)
            };
            &&& found == SaveStage::FindFile
            &&& ready == SaveStage::Write
            &&& save_next(ready, SaveEvent::Done) == SaveStage::Finished
            &&& made_dir ==> save_next(SaveStage::OpenDirectory, SaveEvent::Error)
                == SaveStage::CreateDirectory
            &&& made_file ==> save_next(found, SaveEvent::Absent) == SaveStage::CreateFile
        }),
        save_next(SaveStage::CreateDirectory, SaveEvent::Error) == SaveStage::Failed(
            StorageError::Sd,
        ),
        save_next(SaveStage::FindFile, SaveEvent::Error) == SaveStage::Failed(StorageError::Sd),
        save_next(SaveStage::CreateFile, SaveEvent::Error) == SaveStage::Failed(StorageError::Sd),
        save_next(SaveStage::Write, SaveEvent::Error) == SaveStage::Failed(StorageError::Sd),
{
}

/// The two words of a FAT time stamp hold its fields side by side.
pub proof fn fat_stamps_are_packed(stamp: FatDateTime)
    ensures
        stamp.date == 512 * (stamp.year() - 1980) + 32 * stamp.month() + stamp.day(),
        stamp.time == 2048 * stamp.hour() + 32 * stamp.minute() + stamp.second() / 2,
        1980 <= stamp.year() <= 2107,
        0 <= stamp.month() < 16,
        0 <= stamp.day() < 32,
        0 <= stamp.hour() < 32,
        0 <= stamp.minute() < 64,
        0 <= stamp.second() <= 62,
        stamp.second() % 2 == 0,
{
}

/// A stamp in digits: four for the year, and two each for month, day, hour, minute and second.
pub proof fn stamps_read_back(
    year: nat,
    month: nat,
    day: nat,
    hour: nat,
    minute: nat,
    second: nat,
)
    requires
        year < 10_000,
        month < 100,
        day < 100,
        hour < 100,
        minute < 100,
        second < 100,
    ensures
        ({
            let out = stamp_text(year, month, day, hour, minute, second);
            &&& out.len() == 14
            &&& text::number_value(out.subrange(0, 4)) == Some(year)
            &&& text::number_value(out.subrange(4, 6)) == Some(month)
            &&& text::number_value(out.subrange(6, 8)) == Some(day)
            &&& text::number_value(out.subrange(8, 10)) == Some(hour)
            &&& text::number_value(out.subrange(10, 12)) == Some(minute)
            &&& text::number_value(out.subrange(12, 14)) == Some(second)
        }),
{
    text::zero_padding_keeps_the_number(year, 4);
    text::zero_padding_keeps_the_number(month, 2);
    text::zero_padding_keeps_the_number(day, 2);
    text::zero_padding_keeps_the_number(hour, 2);
    text::zero_padding_keeps_the_number(minute, 2);
    text::zero_padding_keeps_the_number(second, 2);
    let out = stamp_text(year, month, day, hour, minute, second);
    assert(out.subrange(0, 4) =~= text::zero_padded(year, 4));
    assert(out.subrange(4, 6) =~= text::zero_padded(month, 2));
    assert(out.subrange(6, 8) =~= text::zero_padded(day, 2));
    assert(out.subrange(8, 10) =~= text::zero_padded(hour, 2));
    assert(out.subrange(10, 12) =~= text::zero_padded(minute, 2));
    assert(out.subrange(12, 14) =~= text::zero_padded(second, 2));
}

/// The stamp of a local time is that of its calendar fields; there is one for a clock that was
/// never set too.
pub proof fn local_stamps_read_back(local: LocalTime)
    ensures
        local.seconds != 0 ==> ({
            let time = calendar(local.seconds as int);
            now_text(local) == stamp_text(
                time.year as nat,
                time.month as nat,
                time.day as nat,
                time.hour as nat,
                time.minute as nat,
                time.second as nat,
            )
        }),
        local.seconds == 0 ==> now_text(local).len() == 14 && text::number_value(
            now_text(local),
        ) == Some(19800101000000nat),
{
    if local.seconds == 0 {
        reveal_strlit("19800101000000");
        reveal_with_fuel(text::digits_value, 15);
        let s = "19800101000000"@;
        assert(s =~= seq!['1', '9', '8', '0', '0', '1', '0', '1', '0', '0', '0', '0', '0', '0']);
        text::numbers_read_back(19800101000000nat);
        reveal_with_fuel(text::decimal, 15);
        assert(text::decimal(19800101000000nat) =~= s);
    }
}

/// What is usable in a configuration is kept, and what is not gives way to the usual: an hour
/// east of UTC for offsets from before twelve hours west to past fourteen east, and the names
/// that the device comes with.
pub proof fn unusable_settings_give_way(minutes: int, server: Seq<char>, word: Seq<char>)
    ensures
        CONFIG_VERSION == 1,
        -12 * 60 <= minutes <= 14 * 60 ==> usable_offset(minutes) == minutes,
        minutes < -12 * 60 || minutes > 14 * 60 ==> usable_offset(minutes) == 60,
        0 < encode_utf8(server).len() < 65 ==> usable_server(server) == server,
        encode_utf8(server).len() == 0 || encode_utf8(server).len() > 64 ==> usable_server(server)
            == "pool.ntp.org"@,
        is_credential(word) ==> usable_user(word) == word && usable_password(word) == word,
        !is_credential(word) ==> usable_user(word) == seq!['r', 'a', 't'] && usable_password(word)
            == seq!['c', 'h', 'e', 'e', 's', 'e'],
{
    reveal_strlit("rat");
    reveal_strlit("cheese");
    assert("rat"@ =~= seq!['r', 'a', 't']);
    assert("cheese"@ =~= seq!['c', 'h', 'e', 'e', 's', 'e']);
}

/// Taking a network out leaves the others in their order.
pub proof fn others_stay_in_order(networks: Seq<NetworkView>, index: int, i: int)
    requires
        0 <= index < networks.len(),
    ensures
        without_network(networks, index).len() + 1 == networks.len(),
        0 <= i < index ==> without_network(networks, index)[i] == networks[i],
        index <= i < networks.len() - 1 ==> without_network(networks, index)[i] == networks[i + 1],
{
}

/// The course of a load: the directory is opened, then the file, which is then read; either may
/// be missing. A file that was read whole gives its text, if it is text; all else gives the
/// reason.
pub proof fn loads_take_their_course(bytes: Seq<u8>, content: Seq<char>, error: StorageError)
    ensures
        opened_next(LoadStage::Directory, true) == LoadStage::File,
        opened_next(LoadStage::File, true) == LoadStage::Content,
        opened_next(LoadStage::Directory, false) == LoadStage::Failed(StorageError::Missing),
        opened_next(LoadStage::File, false) == LoadStage::Failed(StorageError::Missing),
        opened_next(LoadStage::Failed(error), true) == LoadStage::Failed(error),
        loaded_text(LoadStage::Finished, encode_utf8(content)) == Ok::<Seq<char>, StorageError>(
            content,
        ),
        !valid_utf8(bytes) ==> loaded_text(LoadStage::Finished, bytes) == Err::<
            Seq<char>,
            StorageError,
        >(StorageError::InvalidToml),
        loaded_text(LoadStage::Failed(error), bytes) == Err::<Seq<char>, StorageError>(error),
        loaded_text(LoadStage::Content, bytes) == Err::<Seq<char>, StorageError>(StorageError::Sd),
{
    encode_utf8_valid_utf8(content);
    encode_utf8_decode_utf8(content);
}

/// A file of up to 4096 bytes is saved; a larger one is refused before anything is touched.
pub proof fn large_files_are_not_saved(content: Seq<char>, events: Seq<SaveEvent>)
    ensures
        encode_utf8(content).len() <= 4_096 ==> save_first(content) == SaveStage::OpenDirectory,
        encode_utf8(content).len() > 4_096 ==> save_first(content) == SaveStage::Failed(
            StorageError::TooLarge,
        ) && saved_after(save_first(content), events) == SaveStage::Failed(StorageError::TooLarge),
    decreases events.len(),
{
    if events.len() > 0 {
        large_files_are_not_saved(content, events.drop_last());
    }
}

/// The stamps of FAT reach from 1980 to 2107, in steps of two seconds; any date and time in that
/// range reads back.
pub proof fn fat_stamps_read_back(
    stamp: FatDateTime,
    year: int,
    month: int,
    day: int,
    hour: int,
    minute: int,
    second: int,
)
    requires
        stamp.holds(year, month, day, hour, minute, second),
        1 <= month <= 12,
        1 <= day <= 31,
        0 <= hour < 24,
        0 <= minute < 60,
        0 <= second < 60,
    ensures
        1980 <= year <= 2107 ==> stamp.date == 512 * (year - 1980) + 32 * month + day,
        year < 1980 ==> stamp.date == 32 * month + day,
        year > 2107 ==> stamp.date == 512 * 127 + 32 * month + day,
        stamp.time == 2048 * hour + 32 * minute + second / 2,
{
    fat_stamps_are_packed(stamp);
}

/// What is written has the stamp of its local time, and before the clock was set that of the
/// first second of 2026.
pub proof fn files_have_their_stamps(stamp: FatDateTime, local: LocalTime)
    requires
        stamp.is_of(local),
    ensures
        local.seconds == 0 ==> stamp.date == 512 * 46 + 32 * 1 + 1 && stamp.time == 0,
        local.seconds != 0 ==> {
            let time = calendar(local.seconds as int);
            &&& stamp.month() == time.month && stamp.day() == time.day
            &&& stamp.hour() == time.hour && stamp.minute() == time.minute
            &&& stamp.second() == time.second || stamp.second() + 1 == time.second
            &&& time.year >= 1980 ==> stamp.year() == time.year
            &&& time.year < 1980 ==> stamp.year() == 1980
        },
        stamp.time_tenth == 0,
{
    fat_stamps_are_packed(stamp);
}

/// Local time is kept as it is, from 1970 on and as far as 32 bits reach; zero is a clock that
/// was never set.
pub proof fn local_time_is_kept(local: LocalTime, seconds: int)
    ensures
        0 <= seconds < 4_294_967_296 ==> kept_seconds(seconds) == seconds,
        seconds < 0 ==> kept_seconds(seconds) == 0,
        seconds >= 4_294_967_296 ==> kept_seconds(seconds) == 4_294_967_295,
        local.seconds == 0 ==> local.now() is None,
        local.seconds != 0 ==> local.now() == Some(local.seconds as int),
{
}

/// Fields too large for their bits keep the low ones.
pub proof fn fat_fields_keep_their_low_bits(
    stamp: FatDateTime,
    year: int,
    month: int,
    day: int,
    hour: int,
    minute: int,
    second: int,
)
    requires
        stamp.holds(year, month, day, hour, minute, second),
        1980 <= year <= 2107,
        second >= 0,
    ensures
        stamp.date == 512 * (year - 1980) + 32 * (month % 16) + day % 32,
        stamp.time == 2_048 * (hour % 32) + 32 * (minute % 64) + second / 2 % 32,
{
    fat_stamps_are_packed(stamp);
}

} // verus!
