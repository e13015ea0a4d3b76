//! Registration-time configuration: the policy bundle handed to the
//! system when a directory is registered as a sync root.  The policies
//! chosen here determine which callbacks the system will ever deliver —
//! validation only under a validation-required hydration policy,
//! directory population only under an enumeration-driven population type.
//! The registration call itself is a one-shot request into the system at
//! the boundary of this crate; everything here builds the plain values it
//! carries.

use vstd::prelude::*;
use crate::command::MAX_BLOB_SIZE;

verus! {

/// The longest provider version string a registration accepts, measured
/// in UTF-16 code units — the unit the platform stores the string in.
/// This crate counts characters, which coincides with the unit count for
/// text within the basic multilingual plane; a version string using
/// characters beyond it occupies two units each and must stay
/// correspondingly shorter.
pub const MAX_PROVIDER_VERSION_LENGTH: usize = 255;

/// Hydration policy modifier: hydration must be validated by the
/// provider.
pub const HYDRATION_VALIDATION_REQUIRED: u32 = 1;

/// Hydration policy modifier: streaming hydration is allowed.
pub const HYDRATION_STREAMING_ALLOWED: u32 = 2;

/// Hydration policy modifier: the platform may dehydrate automatically.
pub const HYDRATION_AUTO_DEHYDRATION_ALLOWED: u32 = 4;

/// Hydration policy modifier: an interrupted hydration may restart from
/// the beginning.
pub const HYDRATION_ALLOW_FULL_RESTART: u32 = 8;

/// In-sync attribute: track file creation time.
pub const ATTRIBUTE_FILE_CREATION_TIME: u32 = 0x1;

/// In-sync attribute: track the file read-only attribute.
pub const ATTRIBUTE_FILE_READONLY: u32 = 0x2;

/// In-sync attribute: track the file hidden attribute.
pub const ATTRIBUTE_FILE_HIDDEN: u32 = 0x4;

/// In-sync attribute: track the file system attribute.
pub const ATTRIBUTE_FILE_SYSTEM: u32 = 0x8;

/// In-sync attribute: track file last-write time.
pub const ATTRIBUTE_FILE_LAST_WRITE_TIME: u32 = 0x100;

/// In-sync attribute: track directory creation time.
pub const ATTRIBUTE_DIRECTORY_CREATION_TIME: u32 = 0x10;

/// In-sync attribute: track the directory read-only attribute.
pub const ATTRIBUTE_DIRECTORY_READONLY: u32 = 0x20;

/// In-sync attribute: track the directory hidden attribute.
pub const ATTRIBUTE_DIRECTORY_HIDDEN: u32 = 0x40;

/// In-sync attribute: track directory last-write time.
pub const ATTRIBUTE_DIRECTORY_LAST_WRITE_TIME: u32 = 0x200;

/// In-sync attribute: preserve the in-sync state for the sync engine.
pub const ATTRIBUTE_PRESERVE_INSYNC: u32 = 0x8000_0000;

/// Setting a flag leaves it set: the builder methods below only ever add
/// to a flag word.
pub proof fn lemma_flag_set(bits: u32, flag: u32)
    ensures
        (bits | flag) & flag == flag,
{
    assert((bits | flag) & flag == flag) by (bit_vector);
}

/// Whether files under the sync root may be shared between users.
#[derive(Clone, Copy, Debug, PartialEq, Eq, Structural, Hash)]
pub enum ProtectionMode {
    /// The sync root belongs to one user.
    Personal,
    /// Nothing is known about sharing.
    Unknown,
}

/// How placeholder content is brought local when a file is used.
#[derive(Clone, Copy, Debug, PartialEq, Eq, Structural, Hash)]
pub enum HydrationType {
    /// Only the ranges a reader touches are hydrated.
    Partial,
    /// The whole file hydrates in the background once touched.
    Progressive,
    /// The whole file hydrates before the open completes.
    Full,
    /// Like [HydrationType::Full], and dehydration is refused.
    AlwaysFull,
}

/// How directories under the sync root are populated.
#[derive(Clone, Copy, Debug, PartialEq, Eq, Structural, Hash)]
pub enum PopulationType {
    /// The provider populates directories on demand, once each.
    Full,
    /// The provider is consulted on every enumeration.
    AlwaysFull,
}

/// The hydration policy modifier flags active for a sync root.
#[derive(Clone, Copy, Debug, PartialEq, Eq, Structural, Hash)]
pub struct HydrationPolicy(pub u32);

impl HydrationPolicy {
    /// No modifiers.
    pub fn new() -> (r: Self)
        ensures
            r.0 == 0,
    {
        HydrationPolicy(0)
    }

    /// Requires the provider to validate hydrated data; the system will
    /// then deliver validation callbacks.
    #[must_use]
    pub fn require_validation(self) -> (r: Self)
        ensures
            r.0 == self.0 | HYDRATION_VALIDATION_REQUIRED,
            r.0 & HYDRATION_VALIDATION_REQUIRED == HYDRATION_VALIDATION_REQUIRED,
    {
        proof {
            lemma_flag_set(self.0, HYDRATION_VALIDATION_REQUIRED);
        }
        HydrationPolicy(self.0 | HYDRATION_VALIDATION_REQUIRED)
    }

    /// Allows streaming hydration.
    #[must_use]
    pub fn allow_streaming(self) -> (r: Self)
        ensures
            r.0 == self.0 | HYDRATION_STREAMING_ALLOWED,
            r.0 & HYDRATION_STREAMING_ALLOWED == HYDRATION_STREAMING_ALLOWED,
    {
        proof {
            lemma_flag_set(self.0, HYDRATION_STREAMING_ALLOWED);
        }
        HydrationPolicy(self.0 | HYDRATION_STREAMING_ALLOWED)
    }

    /// Allows the platform to dehydrate placeholders on its own.
    #[must_use]
    pub fn allow_platform_dehydration(self) -> (r: Self)
        ensures
            r.0 == self.0 | HYDRATION_AUTO_DEHYDRATION_ALLOWED,
            r.0 & HYDRATION_AUTO_DEHYDRATION_ALLOWED == HYDRATION_AUTO_DEHYDRATION_ALLOWED,
    {
        proof {
            lemma_flag_set(self.0, HYDRATION_AUTO_DEHYDRATION_ALLOWED);
        }
        HydrationPolicy(self.0 | HYDRATION_AUTO_DEHYDRATION_ALLOWED)
    }

    /// Allows an interrupted hydration to restart from the beginning.
    #[must_use]
    pub fn allow_full_restart_hydration(self) -> (r: Self)
        ensures
            r.0 == self.0 | HYDRATION_ALLOW_FULL_RESTART,
            r.0 & HYDRATION_ALLOW_FULL_RESTART == HYDRATION_ALLOW_FULL_RESTART,
    {
        proof {
            lemma_flag_set(self.0, HYDRATION_ALLOW_FULL_RESTART);
        }
        HydrationPolicy(self.0 | HYDRATION_ALLOW_FULL_RESTART)
    }
}

impl Default for HydrationPolicy {
    /// No modifiers.
    fn default() -> (r: Self)
        ensures
            r.0 == 0,
    {
        HydrationPolicy(0)
    }
}

/// The file and directory attributes whose changes the provider supports
/// keeping in sync.
#[derive(Clone, Copy, Debug, PartialEq, Eq, Structural, Hash)]
pub struct SupportedAttributes(pub u32);

impl SupportedAttributes {
    /// No supported attributes.
    pub fn new() -> (r: Self)
        ensures
            r.0 == 0,
    {
        SupportedAttributes(0)
    }

    /// Supports file creation time.
    #[must_use]
    pub fn file_creation_time(self) -> (r: Self)
        ensures
            r.0 == self.0 | ATTRIBUTE_FILE_CREATION_TIME,
    {
        SupportedAttributes(self.0 | ATTRIBUTE_FILE_CREATION_TIME)
    }

    /// Supports the file read-only attribute.
    #[must_use]
    pub fn file_readonly(self) -> (r: Self)
        ensures
            r.0 == self.0 | ATTRIBUTE_FILE_READONLY,
    {
        SupportedAttributes(self.0 | ATTRIBUTE_FILE_READONLY)
    }

    /// Supports the file hidden attribute.
    #[must_use]
    pub fn file_hidden(self) -> (r: Self)
        ensures
            r.0 == self.0 | ATTRIBUTE_FILE_HIDDEN,
    {
        SupportedAttributes(self.0 | ATTRIBUTE_FILE_HIDDEN)
    }

    /// Supports the file system attribute.
    #[must_use]
    pub fn file_system(self) -> (r: Self)
        ensures
            r.0 == self.0 | ATTRIBUTE_FILE_SYSTEM,
    {
        SupportedAttributes(self.0 | ATTRIBUTE_FILE_SYSTEM)
    }

    /// Supports file last-write time.
    #[must_use]
    pub fn file_last_write_time(self) -> (r: Self)
        ensures
            r.0 == self.0 | ATTRIBUTE_FILE_LAST_WRITE_TIME,
    {
        SupportedAttributes(self.0 | ATTRIBUTE_FILE_LAST_WRITE_TIME)
    }

    /// Supports directory creation time.
    #[must_use]
    pub fn directory_creation_time(self) -> (r: Self)
        ensures
            r.0 == self.0 | ATTRIBUTE_DIRECTORY_CREATION_TIME,
    {
        SupportedAttributes(self.0 | ATTRIBUTE_DIRECTORY_CREATION_TIME)
    }

    /// Supports the directory read-only attribute.
    #[must_use]
    pub fn directory_readonly(self) -> (r: Self)
        ensures
            r.0 == self.0 | ATTRIBUTE_DIRECTORY_READONLY,
    {
        SupportedAttributes(self.0 | ATTRIBUTE_DIRECTORY_READONLY)
    }

    /// Supports the directory hidden attribute.
    #[must_use]
    pub fn directory_hidden(self) -> (r: Self)
        ensures
            r.0 == self.0 | ATTRIBUTE_DIRECTORY_HIDDEN,
    {
        SupportedAttributes(self.0 | ATTRIBUTE_DIRECTORY_HIDDEN)
    }

    /// Supports directory last-write time.
    #[must_use]
    pub fn directory_last_write_time(self) -> (r: Self)
        ensures
            r.0 == self.0 | ATTRIBUTE_DIRECTORY_LAST_WRITE_TIME,
    {
        SupportedAttributes(self.0 | ATTRIBUTE_DIRECTORY_LAST_WRITE_TIME)
    }

    /// Preserves the in-sync state for the sync engine.
    #[must_use]
    pub fn none(self) -> (r: Self)
        ensures
            r.0 == self.0 | ATTRIBUTE_PRESERVE_INSYNC,
    {
        SupportedAttributes(self.0 | ATTRIBUTE_PRESERVE_INSYNC)
    }
}

impl Default for SupportedAttributes {
    /// No supported attributes.
    fn default() -> (r: Self)
        ensures
            r.0 == 0,
    {
        SupportedAttributes(0)
    }
}

/// The identity a sync root is registered under.
#[derive(Clone, Debug)]
pub struct SyncRoot {
    /// The provider's name, also the default display name.
    pub provider_name: String,
    /// The account the root belongs to.
    pub account_name: String,
}

impl SyncRoot {
    pub fn new(provider_name: String, account_name: String) -> (r: Self)
        ensures
            r.provider_name == provider_name,
            r.account_name == account_name,
    {
        SyncRoot { provider_name, account_name }
    }
}

/// The policy bundle a sync root is registered with.  Built with the
/// methods below and handed, as plain values, to the one-shot
/// registration call at the crate's boundary.
#[derive(Clone, Debug)]
pub struct Registration {
    /// The identity being registered.
    pub sync_root: SyncRoot,
    /// Show sync roots of the same provider as a group.
    pub show_siblings_as_group: bool,
    /// Let the user pin placeholders.
    pub allow_pinning: bool,
    /// Allow hard links to placeholders.
    pub allow_hardlinks: bool,
    /// The name shown to the user; the provider name when absent.
    pub display_name: Option<String>,
    /// Where deleted files go, if the provider offers a recycle bin.
    pub recycle_bin_uri: Option<String>,
    /// The provider's version string.
    pub version: Option<String>,
    /// How placeholder content is brought local.
    pub hydration_type: HydrationType,
    /// The hydration policy modifiers.
    pub hydration_policy: HydrationPolicy,
    /// How directories are populated.
    pub population_type: PopulationType,
    /// Whether files may be shared between users.
    pub protection_mode: ProtectionMode,
    /// The attributes kept in sync.
    pub supported_attributes: SupportedAttributes,
    /// The resource path of the icon shown for the root.
    pub icon_path: String,
    /// The index of the icon within its resource.
    pub icon_index: u16,
    /// An opaque context blob stored with the registration.
    pub blob: Option<Vec<u8>>,
}

impl Registration {
    /// A registration for the given identity, with every policy at its
    /// default: progressive hydration, no modifiers, on-demand population,
    /// unknown protection, no supported attributes, no blob, and the
    /// stock cloud-drive icon resource.
    pub fn from_sync_root(sync_root: SyncRoot) -> (r: Self)
        ensures
            r.sync_root == sync_root,
            !r.show_siblings_as_group,
            !r.allow_pinning,
            !r.allow_hardlinks,
            r.display_name is None,
            r.recycle_bin_uri is None,
            r.version is None,
            r.hydration_type == HydrationType::Progressive,
            r.hydration_policy.0 == 0,
            r.population_type == PopulationType::Full,
            r.protection_mode == ProtectionMode::Unknown,
            r.supported_attributes.0 == 0,
            r.icon_path@ == "C:\\Windows\\System32\\imageres.dll"@,
            r.icon_index == 1525,
            r.blob is None,
    {
        Registration {
            sync_root,
            show_siblings_as_group: false,
            allow_pinning: false,
            allow_hardlinks: false,
            display_name: None,
            recycle_bin_uri: None,
            version: None,
            hydration_type: HydrationType::Progressive,
            hydration_policy: HydrationPolicy::new(),
            population_type: PopulationType::Full,
            protection_mode: ProtectionMode::Unknown,
            supported_attributes: SupportedAttributes::new(),
            icon_path: String::from_str("C:\\Windows\\System32\\imageres.dll"),
            icon_index: 1525,
            blob: None,
        }
    }

    /// Chooses the hydration type.
    #[must_use]
    pub fn hydration_type(self, hydration_type: HydrationType) -> (r: Self)
        ensures
            r == (Registration { hydration_type, ..self }),
    {
        Registration { hydration_type, ..self }
    }

    /// Lets the user pin placeholders.
    #[must_use]
    pub fn allow_pinning(self) -> (r: Self)
        ensures
            r == (Registration { allow_pinning: true, ..self }),
    {
        Registration { allow_pinning: true, ..self }
    }

    /// Allows hard links to placeholders.
    #[must_use]
    pub fn allow_hardlinks(self) -> (r: Self)
        ensures
            r == (Registration { allow_hardlinks: true, ..self }),
    {
        Registration { allow_hardlinks: true, ..self }
    }

    /// Sets the name shown to the user.
    #[must_use]
    pub fn display_name(self, display_name: String) -> (r: Self)
        ensures
            r == (Registration { display_name: Some(display_name), ..self }),
    {
        Registration { display_name: Some(display_name), ..self }
    }

    /// Sets the provider's recycle-bin location.
    #[must_use]
    pub fn recycle_bin_uri(self, uri: String) -> (r: Self)
        ensures
            r == (Registration { recycle_bin_uri: Some(uri), ..self }),
    {
        Registration { recycle_bin_uri: Some(uri), ..self }
    }

    /// Shows sync roots of the same provider as a group.
    #[must_use]
    pub fn show_siblings_as_group(self) -> (r: Self)
        ensures
            r == (Registration { show_siblings_as_group: true, ..self }),
    {
        Registration { show_siblings_as_group: true, ..self }
    }

    /// Chooses the population type.
    #[must_use]
    pub fn population_type(self, population_type: PopulationType) -> (r: Self)
        ensures
            r == (Registration { population_type, ..self }),
    {
        Registration { population_type, ..self }
    }

    /// Sets the provider's version string, at most
    /// [MAX_PROVIDER_VERSION_LENGTH] characters.
    #[must_use]
    pub fn version(self, version: String) -> (r: Self)
        requires
            version@.len() <= MAX_PROVIDER_VERSION_LENGTH,
        ensures
            r == (Registration { version: Some(version), ..self }),
    {
        Registration { version: Some(version), ..self }
    }

    /// Chooses the protection mode.
    #[must_use]
    pub fn protection_mode(self, protection_mode: ProtectionMode) -> (r: Self)
        ensures
            r == (Registration { protection_mode, ..self }),
    {
        Registration { protection_mode, ..self }
    }

    /// Chooses the attributes kept in sync.
    #[must_use]
    pub fn supported_attributes(self, supported_attributes: SupportedAttributes) -> (r: Self)
        ensures
            r == (Registration { supported_attributes, ..self }),
    {
        Registration { supported_attributes, ..self }
    }

    /// Chooses the hydration policy modifiers.
    #[must_use]
    pub fn hydration_policy(self, hydration_policy: HydrationPolicy) -> (r: Self)
        ensures
            r == (Registration { hydration_policy, ..self }),
    {
        Registration { hydration_policy, ..self }
    }

    /// Sets the icon shown for the root: a resource path and the icon's
    /// index within it.
    #[must_use]
    pub fn icon(self, path: String, index: u16) -> (r: Self)
        ensures
            r == (Registration { icon_path: path, icon_index: index, ..self }),
    {
        Registration { icon_path: path, icon_index: index, ..self }
    }

    /// Attaches an opaque context blob, at most [MAX_BLOB_SIZE] bytes.
    #[must_use]
    pub fn blob(self, blob: Vec<u8>) -> (r: Self)
        requires
            blob@.len() <= MAX_BLOB_SIZE,
        ensures
            r == (Registration { blob: Some(blob), ..self }),
    {
        Registration { blob: Some(blob), ..self }
    }

    /// The name the registration will display: the chosen display name,
    /// or the provider's name when none was chosen.
    pub fn effective_display_name(&self) -> (r: &String)
        ensures
            self.display_name matches Some(n) ==> r == n,
            self.display_name is None ==> r == self.sync_root.provider_name,
    {
        match &self.display_name {
            Some(n) => n,
            None => &self.sync_root.provider_name,
        }
    }
}

} // verus!
