//! Platform-level rules of the iOS backend: appearance and thermal state,
//! the display's identity, file pickers, keychain results, and the
//! bookkeeping of live document-picker delegates.
use vstd::prelude::*;
use uuid::Uuid;
use crate::strings::{append, owned, push_decimal, push_signed_decimal, spec_decimal, spec_signed_decimal};

verus! {

#[verifier::external_type_specification]
#[verifier::external_body]
pub struct ExUuid(Uuid);

/// What `Uuid::parse_str` accepts a string as: the sixteen bytes of the
/// UUID it spells (in any of the formats the uuid crate reads), or none.
pub uninterp spec fn spec_uuid_parse(s: Seq<char>) -> Option<Seq<u8>>;

/// `Uuid::parse_str`, keeping the parsed UUID's bytes.
#[verifier::external_body]
fn uuid_parse_bytes(s: &str) -> (r: Option<[u8; 16]>)
    ensures
        match r {
            Some(b) => spec_uuid_parse(s@) == Some(b@),
            None => spec_uuid_parse(s@) is None,
        },
{
    match Uuid::parse_str(s) {
        Ok(u) => Some(u.into_bytes()),
        Err(_) => None,
    }
}

/// The sixteen bytes a UUID holds (what `Uuid::as_bytes` gives back).
pub uninterp spec fn spec_uuid_bytes(uuid: Uuid) -> Seq<u8>;

/// `Uuid::from_bytes`: the UUID that holds exactly these bytes.
#[verifier::external_body]
fn uuid_from_bytes(bytes: [u8; 16]) -> (uuid: Uuid)
    ensures
        spec_uuid_bytes(uuid) == bytes@,
{
    Uuid::from_bytes(bytes)
}

/// The UIKit screen, seen as a GPUI display.
#[derive(Clone, Copy, Debug, PartialEq, Eq, Structural)]
pub struct IosDisplay {
    pub id: u32,
}

/// The bytes of the display's UUID: those of the device's
/// `identifierForVendor` when it is present and parses as a UUID, and
/// sixteen `0x01` bytes otherwise.
pub open spec fn spec_display_uuid_bytes(vendor_identifier: Option<Seq<char>>) -> Seq<u8> {
    match vendor_identifier {
        Some(s) => match spec_uuid_parse(s) {
            Some(b) => b,
            None => Seq::new(16, |i: int| 1u8),
        },
        None => Seq::new(16, |i: int| 1u8),
    }
}

impl IosDisplay {
    /// iOS has one display, with id 1.
    pub fn primary() -> (d: Self)
        ensures
            d.id == 1,
    {
        IosDisplay { id: 1 }
    }

    pub fn id(&self) -> (id: u32)
        ensures
            id == self.id,
    {
        self.id
    }

    /// The bytes of the display's UUID, given the vendor identifier string.
    pub fn uuid_bytes(vendor_identifier: Option<&str>) -> (b: [u8; 16])
        ensures
            b@ == spec_display_uuid_bytes(
                match vendor_identifier {
                    Some(s) => Some(s@),
                    None => None,
                },
            ),
    {
        match vendor_identifier {
            Some(s) => Self::uuid_bytes_or_fallback(uuid_parse_bytes(s)),
            None => Self::uuid_bytes_or_fallback(None),
        }
    }

    /// The bytes of the display's UUID given the bytes the vendor identifier
    /// parsed to: those bytes, or sixteen `0x01` bytes when there are none.
    pub fn uuid_bytes_or_fallback(parsed: Option<[u8; 16]>) -> (b: [u8; 16])
        ensures
            b@ == match parsed {
                Some(p) => p@,
                None => Seq::new(16, |i: int| 1u8),
            },
    {
        match parsed {
            Some(p) => p,
            None => {
                let fallback: [u8; 16] = [1u8, 1, 1, 1, 1, 1, 1, 1, 1, 1, 1, 1, 1, 1, 1, 1];
                assert(fallback@ =~= Seq::new(16, |i: int| 1u8));
                fallback
            },
        }
    }

    /// The display's UUID: stable per app vendor on the device.
    pub fn uuid(&self, vendor_identifier: Option<&str>) -> (uuid: Uuid)
        ensures
            spec_uuid_bytes(uuid) == spec_display_uuid_bytes(
                match vendor_identifier {
                    Some(s) => Some(s@),
                    None => None,
                },
            ),
    {
        uuid_from_bytes(Self::uuid_bytes(vendor_identifier))
    }
}

/// The system appearance.
#[derive(Clone, Copy, Debug, PartialEq, Eq, Structural)]
pub enum WindowAppearance {
    Light,
    VibrantLight,
    Dark,
    VibrantDark,
}

/// `UIUserInterfaceStyle` 2 is dark; unspecified (0) and light (1) read as
/// light.
pub fn appearance_from_interface_style(style: isize) -> (a: WindowAppearance)
    ensures
        a == (if style == 2 { WindowAppearance::Dark } else { WindowAppearance::Light }),
{
    if style == 2 {
        WindowAppearance::Dark
    } else {
        WindowAppearance::Light
    }
}

/// A trait-collection change reports an appearance change unless the
/// previous collection had the same interface style.
pub fn appearance_changed(current_style: isize, previous_style: Option<isize>) -> (b: bool)
    ensures
        b == match previous_style {
            Some(p) => p != current_style,
            None => true,
        },
{
    match previous_style {
        Some(p) => p != current_style,
        None => true,
    }
}

/// The device's thermal state.
#[derive(Clone, Copy, Debug, PartialEq, Eq, Structural)]
pub enum ThermalState {
    Nominal,
    Fair,
    Serious,
    Critical,
}

/// `NSProcessInfoThermalState`: 1 fair, 2 serious, 3 critical; anything
/// else nominal.
pub fn thermal_state_from_raw(state: isize) -> (t: ThermalState)
    ensures
        t == (if state == 1 {
            ThermalState::Fair
        } else if state == 2 {
            ThermalState::Serious
        } else if state == 3 {
            ThermalState::Critical
        } else {
            ThermalState::Nominal
        }),
{
    if state == 1 {
        ThermalState::Fair
    } else if state == 2 {
        ThermalState::Serious
    } else if state == 3 {
        ThermalState::Critical
    } else {
        ThermalState::Nominal
    }
}

/// Why a path prompt could not be shown.
#[derive(Clone, Copy, Debug, PartialEq, Eq, Structural)]
pub enum PathPromptError {
    /// No view controller to present the document picker from.
    NoPresenter,
    /// Neither files nor directories were asked for.
    InvalidOptions,
}

impl PathPromptError {
    pub fn message(&self) -> (m: &'static str)
        ensures
            *self == PathPromptError::NoPresenter ==> m@
                == "no active view controller to present document picker"@,
            *self == PathPromptError::InvalidOptions ==> m@
                == "invalid path prompt options: at least one of files/directories must be true"@,
    {
        match self {
            PathPromptError::NoPresenter => "no active view controller to present document picker",
            PathPromptError::InvalidOptions => "invalid path prompt options: at least one of files/directories must be true",
        }
    }
}

/// The uniform type identifiers the open-document picker offers: data
/// when files are wanted, folders when directories are. A missing
/// presenter is reported before invalid options.
pub fn prompt_content_types(has_presenter: bool, files: bool, directories: bool) -> (r: Result<
    Vec<&'static str>,
    PathPromptError,
>)
    ensures
        !has_presenter ==> r == Err::<Vec<&'static str>, _>(PathPromptError::NoPresenter),
        has_presenter && !files && !directories ==> r == Err::<Vec<&'static str>, _>(
            PathPromptError::InvalidOptions,
        ),
        has_presenter && (files || directories) ==> (r matches Ok(types) && types@.map_values(
            |t: &str| t@,
        ) == (if files { seq!["public.data"@] } else { seq![] }) + (if directories {
            seq!["public.folder"@]
        } else {
            seq![]
        })),
{
    if !has_presenter {
        return Err(PathPromptError::NoPresenter);
    }
    if !files && !directories {
        return Err(PathPromptError::InvalidOptions);
    }
    let mut types: Vec<&'static str> = Vec::new();
    if files {
        types.push("public.data");
    }
    if directories {
        types.push("public.folder");
    }
    assert(types@.map_values(|t: &str| t@) =~= (if files { seq!["public.data"@] } else { seq![] })
        + (if directories { seq!["public.folder"@] } else { seq![] }));
    Ok(types)
}

/// The name of the empty temporary file a save picker exports:
/// `gpui-export-<milliseconds since the epoch>-<suggested name>`, with
/// `untitled.txt` when no name is suggested.
pub fn export_file_name(now_ms: u128, suggested_name: Option<&str>) -> (name: String)
    ensures
        name@ == "gpui-export-"@ + spec_decimal(now_ms as nat) + "-"@ + match suggested_name {
            Some(s) => s@,
            None => "untitled.txt"@,
        },
{
    let mut name = owned("gpui-export-");
    push_decimal(&mut name, now_ms);
    append(&mut name, "-");
    match suggested_name {
        Some(s) => append(&mut name, s),
        None => append(&mut name, "untitled.txt"),
    }
    name
}

/// A window of a connected scene, as seen when looking for a controller to
/// present from. A controller is its address, 0 for none.
#[derive(Clone, Copy, Debug, PartialEq, Eq, Structural)]
pub struct SceneWindow {
    pub is_key: bool,
    pub root_controller: usize,
}

/// The root controller of the first key window that has one, searching
/// windows in order.
pub open spec fn spec_first_key_root(windows: Seq<SceneWindow>) -> Option<usize>
    decreases windows.len(),
{
    if windows.len() == 0 {
        None
    } else if windows[0].is_key && windows[0].root_controller != 0 {
        Some(windows[0].root_controller)
    } else {
        spec_first_key_root(windows.drop_first())
    }
}

/// The controller pickers are presented from: the one the platform was
/// given, if any; otherwise the root controller of the first key window
/// among the scenes' windows (listed scene by scene).
pub fn presenting_controller(active_controller: usize, windows: &[SceneWindow]) -> (r: Option<usize>)
    ensures
        active_controller != 0 ==> r == Some(active_controller),
        active_controller == 0 ==> r == spec_first_key_root(windows@),
{
    if active_controller != 0 {
        return Some(active_controller);
    }
    let mut i: usize = 0;
    assert(windows@.subrange(0, windows@.len() as int) =~= windows@);
    while i < windows.len()
        invariant
            i <= windows.len(),
            active_controller == 0,
            spec_first_key_root(windows@) == spec_first_key_root(windows@.subrange(i as int, windows@.len() as int)),
        decreases windows.len() - i,
    {
        let ghost rest = windows@.subrange(i as int, windows@.len() as int);
        assert(rest.drop_first() =~= windows@.subrange(i + 1, windows@.len() as int));
        let w = windows[i];
        if w.is_key && w.root_controller != 0 {
            return Some(w.root_controller);
        }
        i = i + 1;
    }
    None
}

/// A single-path picker answers with the first picked path; a cancelled
/// picker answers with none.
pub fn first_picked_path(picked: Option<Vec<String>>) -> (r: Option<String>)
    ensures
        match picked {
            Some(paths) => if paths@.len() > 0 {
                r matches Some(p) && p == paths@[0]
            } else {
                r is None
            },
            None => r is None,
        },
{
    match picked {
        Some(paths) => {
            let mut paths = paths;
            if paths.len() > 0 {
                Some(paths.remove(0))
            } else {
                None
            }
        },
        None => None,
    }
}

/// Forgets a finished document-picker delegate: its first occurrence is
/// swap-removed from the live list; an unknown delegate changes nothing.
pub fn forget_delegate(delegates: &mut Vec<usize>, delegate: usize)
    ensures
        !old(delegates)@.contains(delegate) ==> final(delegates)@ == old(delegates)@,
        old(delegates)@.contains(delegate) ==> exists|i: int|
            0 <= i < old(delegates)@.len() && old(delegates)@[i] == delegate && (forall|j: int|
                0 <= j < i ==> old(delegates)@[j] != delegate) && final(delegates)@ == old(
                delegates,
            )@.update(i, old(delegates)@.last()).drop_last(),
{
    let mut i: usize = 0;
    while i < delegates.len()
        invariant
            i <= delegates.len(),
            delegates@ == old(delegates)@,
            forall|j: int| 0 <= j < i ==> delegates@[j] != delegate,
        decreases delegates.len() - i,
    {
        if delegates[i] == delegate {
            let ghost before = delegates@;
            delegates.swap_remove(i);
            assert(delegates@ =~= before.update(i as int, before.last()).drop_last());
            return;
        }
        i = i + 1;
    }
}

/// `errSecSuccess`.
pub const ERR_SEC_SUCCESS: i32 = 0;
/// `errSecUserCanceled`.
pub const ERR_SEC_USER_CANCELED: i32 = -128;
/// `errSecItemNotFound`.
pub const ERR_SEC_ITEM_NOT_FOUND: i32 = -25300;

/// The keychain operation a failure happened in.
#[derive(Clone, Copy, Debug, PartialEq, Eq, Structural)]
pub enum KeychainOperation {
    Updating,
    Creating,
    Reading,
    Deleting,
}

/// A keychain call that returned a failing status.
#[derive(Clone, Copy, Debug, PartialEq, Eq, Structural)]
pub struct KeychainError {
    pub operation: KeychainOperation,
    pub status: i32,
}

impl KeychainError {
    /// The error's message: the failing operation and the status code.
    pub fn message(&self) -> (m: String)
        ensures
            m@ == match self.operation {
                KeychainOperation::Updating => "updating password failed: "@,
                KeychainOperation::Creating => "creating password failed: "@,
                KeychainOperation::Reading => "reading password failed: "@,
                KeychainOperation::Deleting => "delete password failed: "@,
            } + spec_signed_decimal(self.status as int),
    {
        let mut m = match self.operation {
            KeychainOperation::Updating => owned("updating password failed: "),
            KeychainOperation::Creating => owned("creating password failed: "),
            KeychainOperation::Reading => owned("reading password failed: "),
            KeychainOperation::Deleting => owned("delete password failed: "),
        };
        push_signed_decimal(&mut m, self.status as i64);
        m
    }
}

/// Writing credentials first updates an existing item; only when there is
/// no such item does it add one.
pub fn credential_write_needs_add(update_status: i32) -> (b: bool)
    ensures
        b == (update_status == ERR_SEC_ITEM_NOT_FOUND),
{
    update_status == ERR_SEC_ITEM_NOT_FOUND
}

/// The result of writing credentials from the status of the last keychain
/// call, which was an add when `created` is set and an update otherwise.
pub open spec fn spec_credential_write_result(created: bool, status: i32) -> Result<(), KeychainError> {
    if status == ERR_SEC_SUCCESS {
        Ok(())
    } else {
        Err(
            KeychainError {
                operation: if created {
                    KeychainOperation::Creating
                } else {
                    KeychainOperation::Updating
                },
                status,
            },
        )
    }
}

pub fn credential_write_result(created: bool, status: i32) -> (r: Result<(), KeychainError>)
    ensures
        r == spec_credential_write_result(created, status),
        status == ERR_SEC_SUCCESS ==> r is Ok,
        status != ERR_SEC_SUCCESS ==> r == Err::<(), KeychainError>(
            KeychainError {
                operation: if created {
                    KeychainOperation::Creating
                } else {
                    KeychainOperation::Updating
                },
                status,
            },
        ),
{
    if status == ERR_SEC_SUCCESS {
        Ok(())
    } else {
        Err(
            KeychainError {
                operation: if created {
                    KeychainOperation::Creating
                } else {
                    KeychainOperation::Updating
                },
                status,
            },
        )
    }
}

/// What a keychain lookup status means.
#[derive(Clone, Copy, Debug, PartialEq, Eq, Structural)]
pub enum CredentialLookup {
    /// The item was found: go on to read its account and password.
    Found,
    /// There is no item, or the user cancelled: no credentials.
    Absent,
    /// The lookup failed.
    Failed(KeychainError),
}

/// What a lookup status means: success finds the item, a missing item or
/// a cancelled prompt means no credentials, anything else is a read error.
pub open spec fn spec_credential_lookup(status: i32) -> CredentialLookup {
    if status == ERR_SEC_SUCCESS {
        CredentialLookup::Found
    } else if status == ERR_SEC_ITEM_NOT_FOUND || status == ERR_SEC_USER_CANCELED {
        CredentialLookup::Absent
    } else {
        CredentialLookup::Failed(KeychainError { operation: KeychainOperation::Reading, status })
    }
}

pub fn credential_lookup(status: i32) -> (r: CredentialLookup)
    ensures
        r == spec_credential_lookup(status),
        status == ERR_SEC_SUCCESS ==> r == CredentialLookup::Found,
        status == ERR_SEC_ITEM_NOT_FOUND || status == ERR_SEC_USER_CANCELED ==> r
            == CredentialLookup::Absent,
        status != ERR_SEC_SUCCESS && status != ERR_SEC_ITEM_NOT_FOUND && status
            != ERR_SEC_USER_CANCELED ==> r == CredentialLookup::Failed(
            KeychainError { operation: KeychainOperation::Reading, status },
        ),
{
    if status == ERR_SEC_SUCCESS {
        CredentialLookup::Found
    } else if status == ERR_SEC_ITEM_NOT_FOUND || status == ERR_SEC_USER_CANCELED {
        CredentialLookup::Absent
    } else {
        CredentialLookup::Failed(KeychainError { operation: KeychainOperation::Reading, status })
    }
}

/// Deleting credentials succeeds exactly when the keychain call does.
pub open spec fn spec_credential_delete_result(status: i32) -> Result<(), KeychainError> {
    if status == ERR_SEC_SUCCESS {
        Ok(())
    } else {
        Err(KeychainError { operation: KeychainOperation::Deleting, status })
    }
}

pub fn credential_delete_result(status: i32) -> (r: Result<(), KeychainError>)
    ensures
        r == spec_credential_delete_result(status),
        status == ERR_SEC_SUCCESS ==> r is Ok,
        status != ERR_SEC_SUCCESS ==> r == Err::<(), KeychainError>(
            KeychainError { operation: KeychainOperation::Deleting, status },
        ),
{
    if status == ERR_SEC_SUCCESS {
        Ok(())
    } else {
        Err(KeychainError { operation: KeychainOperation::Deleting, status })
    }
}

/// Why a found keychain item could not be read as credentials.
#[derive(Clone, Copy, Debug, PartialEq, Eq, Structural)]
pub enum CredentialItemError {
    NotDictionary,
    AccountMissing,
    AccountNotString,
    PasswordMissing,
    PasswordNotData,
}

impl CredentialItemError {
    pub fn message(&self) -> (m: &'static str)
        ensures
            m@ == match *self {
                CredentialItemError::NotDictionary => "keychain item was not a dictionary"@,
                CredentialItemError::AccountMissing => "account was missing from keychain item"@,
                CredentialItemError::AccountNotString => "account was not a string"@,
                CredentialItemError::PasswordMissing => "password was missing from keychain item"@,
                CredentialItemError::PasswordNotData => "password was not data"@,
            },
    {
        match self {
            CredentialItemError::NotDictionary => "keychain item was not a dictionary",
            CredentialItemError::AccountMissing => "account was missing from keychain item",
            CredentialItemError::AccountNotString => "account was not a string",
            CredentialItemError::PasswordMissing => "password was missing from keychain item",
            CredentialItemError::PasswordNotData => "password was not data",
        }
    }
}

pub open spec fn opt_opt_string_view(v: Option<Option<String>>) -> Option<Option<Seq<char>>> {
    match v {
        Some(Some(s)) => Some(Some(s@)),
        Some(None) => Some(None),
        None => None,
    }
}

pub open spec fn opt_opt_bytes_view(v: Option<Option<Vec<u8>>>) -> Option<Option<Seq<u8>>> {
    match v {
        Some(Some(b)) => Some(Some(b@)),
        Some(None) => Some(None),
        None => None,
    }
}

/// The credentials a found keychain item holds. The item must be a
/// dictionary; its account must be present (outer `Some`) and a string
/// (inner `Some`); then its password must be present and data. The first
/// check that fails gives the error.
pub open spec fn spec_credential_from_item(
    is_dictionary: bool,
    account: Option<Option<Seq<char>>>,
    password: Option<Option<Seq<u8>>>,
) -> Result<(Seq<char>, Seq<u8>), CredentialItemError> {
    if !is_dictionary {
        Err(CredentialItemError::NotDictionary)
    } else {
        match account {
            None => Err(CredentialItemError::AccountMissing),
            Some(None) => Err(CredentialItemError::AccountNotString),
            Some(Some(a)) => match password {
                None => Err(CredentialItemError::PasswordMissing),
                Some(None) => Err(CredentialItemError::PasswordNotData),
                Some(Some(p)) => Ok((a, p)),
            },
        }
    }
}

pub fn credential_from_item(
    is_dictionary: bool,
    account: Option<Option<String>>,
    password: Option<Option<Vec<u8>>>,
) -> (r: Result<(String, Vec<u8>), CredentialItemError>)
    ensures
        match spec_credential_from_item(
            is_dictionary,
            opt_opt_string_view(account),
            opt_opt_bytes_view(password),
        ) {
            Ok((a, p)) => r matches Ok((ra, rp)) && ra@ == a && rp@ == p,
            Err(e) => r == Err::<(String, Vec<u8>), CredentialItemError>(e),
        },
{
    if !is_dictionary {
        return Err(CredentialItemError::NotDictionary);
    }
    let account = match account {
        None => return Err(CredentialItemError::AccountMissing),
        Some(None) => return Err(CredentialItemError::AccountNotString),
        Some(Some(a)) => a,
    };
    match password {
        None => Err(CredentialItemError::PasswordMissing),
        Some(None) => Err(CredentialItemError::PasswordNotData),
        Some(Some(p)) => Ok((account, p)),
    }
}

/// Why reading credentials failed.
#[derive(Clone, Copy, Debug, PartialEq, Eq, Structural)]
pub enum CredentialReadError {
    Keychain(KeychainError),
    Item(CredentialItemError),
}

/// The keychain as plain values: per server URL, the account and the
/// password stored for it.
pub type KeychainModel = Map<Seq<char>, (Seq<char>, Seq<u8>)>;

/// The status the keychain answers a query for `url` with: success when
/// it holds an item for the URL, item-not-found otherwise.
pub open spec fn spec_keychain_status(kc: KeychainModel, url: Seq<char>) -> i32 {
    if kc.dom().contains(url) {
        ERR_SEC_SUCCESS
    } else {
        ERR_SEC_ITEM_NOT_FOUND
    }
}

/// Writing credentials: the update answers with the keychain's status;
/// when there is no item an add follows, which stores it. The keychain then
/// holds the credentials for the URL.
pub open spec fn spec_write_credentials(kc: KeychainModel, url: Seq<char>, account: Seq<char>, password: Seq<u8>) -> (KeychainModel, Result<(), KeychainError>) {
    let update = spec_keychain_status(kc, url);
    let result = if update == ERR_SEC_ITEM_NOT_FOUND {
        spec_credential_write_result(true, ERR_SEC_SUCCESS)
    } else {
        spec_credential_write_result(false, update)
    };
    (kc.insert(url, (account, password)), result)
}

/// Reading credentials: the lookup's status decides; a found item is read
/// as credentials.
pub open spec fn spec_read_credentials(kc: KeychainModel, url: Seq<char>) -> Result<Option<(Seq<char>, Seq<u8>)>, CredentialReadError> {
    match spec_credential_lookup(spec_keychain_status(kc, url)) {
        CredentialLookup::Found => match spec_credential_from_item(
            true,
            Some(Some(kc[url].0)),
            Some(Some(kc[url].1)),
        ) {
            Ok(c) => Ok(Some(c)),
            Err(e) => Err(CredentialReadError::Item(e)),
        },
        CredentialLookup::Absent => Ok(None),
        CredentialLookup::Failed(e) => Err(CredentialReadError::Keychain(e)),
    }
}

/// Deleting credentials: the keychain's status decides the result, and the
/// item for the URL is gone afterwards.
pub open spec fn spec_delete_credentials(kc: KeychainModel, url: Seq<char>) -> (KeychainModel, Result<(), KeychainError>) {
    (kc.remove(url), spec_credential_delete_result(spec_keychain_status(kc, url)))
}

/// Credentials written for a URL read back as written; deleting them then
/// succeeds, after which reading finds none (not an error); deleting again
/// fails with item-not-found. Other URLs' items are left alone.
pub proof fn lemma_keychain_round_trip(
    kc: KeychainModel,
    url: Seq<char>,
    account: Seq<char>,
    password: Seq<u8>,
    other: Seq<char>,
)
    requires
        other != url,
    ensures
        ({
            let (written, write_result) = spec_write_credentials(kc, url, account, password);
            let (deleted, delete_result) = spec_delete_credentials(written, url);
            &&& write_result is Ok
            &&& spec_read_credentials(written, url) == Ok::<_, CredentialReadError>(Some((account, password)))
            &&& delete_result is Ok
            &&& spec_read_credentials(deleted, url) == Ok::<Option<(Seq<char>, Seq<u8>)>, CredentialReadError>(None)
            &&& spec_delete_credentials(deleted, url).1 == Err::<(), KeychainError>(
                KeychainError { operation: KeychainOperation::Deleting, status: ERR_SEC_ITEM_NOT_FOUND },
            )
            &&& spec_read_credentials(written, other) == spec_read_credentials(kc, other)
        }),
{
    let (written, _) = spec_write_credentials(kc, url, account, password);
    let (deleted, _) = spec_delete_credentials(written, url);
    assert(written.dom().contains(url));
    assert(!deleted.dom().contains(url));
    assert(written.dom().contains(other) == kc.dom().contains(other));
    if kc.dom().contains(other) {
        assert(written[other] == kc[other]);
    }
}

} // verus!
