//! Global configuration: directory layout and tilde expansion.
use vstd::prelude::*;
use vstd::string::StrSliceExecFns;

use crate::constants::{DAEMON_SOCKET_PATH, DEFAULT_CONFIG_DIR, DEFAULT_DATA_DIR};
use crate::device::DeviceConfig;

verus! {

/// The user's home directory as reported by the environment.
///
/// Calls `dirs::home_dir` and renders the path for display; the answer comes
/// from the process environment and the password database, so nothing is
/// claimed about it.
#[verifier::external_body]
pub(crate) fn home_dir() -> Option<String> {
    match dirs::home_dir() {
        Some(h) => Some(h.display().to_string()),
        None => None,
    }
}

/// Whether `path` begins with `~/`.
pub open spec fn starts_with_tilde(path: Seq<char>) -> bool {
    path.len() >= 2 && path[0] == '~' && path[1] == '/'
}

/// `path` with a leading `~/` replaced by `home/`, when there is a home
/// directory; otherwise `path` unchanged.
pub open spec fn expand_tilde_spec(path: Seq<char>, home: Option<Seq<char>>) -> Seq<char> {
    if starts_with_tilde(path) && home is Some {
        home->0 + seq!['/'] + path.skip(2)
    } else {
        path
    }
}

/// `base` followed by the relative component `seg`, with a `/` between them
/// unless `base` is empty or already ends with one.
pub open spec fn path_join(base: Seq<char>, seg: Seq<char>) -> Seq<char> {
    if base.len() == 0 || base.last() == '/' {
        base + seg
    } else {
        base + seq!['/'] + seg
    }
}

/// Expand a leading `~` against the given home directory.
pub fn expand_tilde_in(path: &str, home: Option<String>) -> (r: String)
    ensures
        r@ == expand_tilde_spec(path@, match home {
            Some(h) => Some(h@),
            None => None,
        }),
{
    let n = path.unicode_len();
    if n >= 2 && path.get_char(0) == '~' && path.get_char(1) == '/' {
        if let Some(h) = home {
            let rest = path.substring_char(2, n);
            proof {
                reveal_strlit("/");
                assert(rest@ =~= path@.skip(2));
            }
            return h.concat("/").concat(rest);
        }
    }
    String::from_str(path)
}

/// Expand a leading `~` to the user's home directory.
pub fn expand_tilde(path: &str) -> (r: String)
    ensures
        exists|home: Option<Seq<char>>| r@ == #[trigger] expand_tilde_spec(path@, home),
{
    let home = home_dir();
    let ghost h = match &home {
        Some(h) => Some(h@),
        None => None,
    };
    let r = expand_tilde_in(path, home);
    assert(r@ == expand_tilde_spec(path@, h));
    r
}

/// `base` joined with the relative component `seg` (see `path_join`).
pub fn join_path(base: &str, seg: &str) -> (r: String)
    ensures
        r@ == path_join(base@, seg@),
{
    let n = base.unicode_len();
    proof {
        reveal_strlit("/");
    }
    if n == 0 || base.get_char(n - 1) == '/' {
        String::from_str(base).concat(seg)
    } else {
        String::from_str(base).concat("/").concat(seg)
    }
}

/// Global daemon-level configuration.
#[derive(Debug, Clone)]
pub struct GlobalConfig {
    pub socket_path: String,
    pub log_level: String,
    pub data_dir: String,
    pub config_dir: String,
}

impl Default for GlobalConfig {
    fn default() -> (c: Self)
        ensures
            c.socket_path@ == DAEMON_SOCKET_PATH@,
            c.log_level@ == "info"@,
            c.data_dir@ == DEFAULT_DATA_DIR@,
            c.config_dir@ == DEFAULT_CONFIG_DIR@,
    {
        GlobalConfig {
            socket_path: String::from_str(DAEMON_SOCKET_PATH),
            log_level: String::from_str("info"),
            data_dir: String::from_str(DEFAULT_DATA_DIR),
            config_dir: String::from_str(DEFAULT_CONFIG_DIR),
        }
    }
}

/// Top-level configuration loaded from `~/.config/litedroid/config.toml`.
#[derive(Debug, Clone)]
pub struct LiteDroidConfig {
    pub global: GlobalConfig,
}

impl Default for LiteDroidConfig {
    fn default() -> (c: Self)
        ensures
            c.global.socket_path@ == DAEMON_SOCKET_PATH@,
            c.global.log_level@ == "info"@,
            c.global.data_dir@ == DEFAULT_DATA_DIR@,
            c.global.config_dir@ == DEFAULT_CONFIG_DIR@,
    {
        LiteDroidConfig { global: GlobalConfig::default() }
    }
}

impl LiteDroidConfig {
    /// The data directory for a given home directory.
    pub open spec fn data_dir_for(&self, home: Option<Seq<char>>) -> Seq<char> {
        expand_tilde_spec(self.global.data_dir@, home)
    }

    /// Returns the expanded data directory path.
    pub fn data_dir(&self) -> (p: String)
        ensures
            exists|home: Option<Seq<char>>| p@ == self.data_dir_for(home),
    {
        let p = expand_tilde(self.global.data_dir.as_str());
        proof {
            let h = choose|h: Option<Seq<char>>| p@ == expand_tilde_spec(self.global.data_dir@, h);
            assert(p@ == self.data_dir_for(h));
        }
        p
    }

    /// The per-device directory for a given home directory.
    pub open spec fn devices_dir_for(&self, home: Option<Seq<char>>) -> Seq<char> {
        path_join(self.data_dir_for(home), "devices"@)
    }

    /// Returns the directory that stores per-device configurations.
    pub fn devices_dir(&self) -> (p: String)
        ensures
            exists|home: Option<Seq<char>>| p@ == self.devices_dir_for(home),
            exists|home: Option<Seq<char>>| p@ == path_join(self.data_dir_for(home), "devices"@),
    {
        let d = self.data_dir();
        let p = join_path(d.as_str(), "devices");
        proof {
            let h = choose|h: Option<Seq<char>>| d@ == self.data_dir_for(h);
            assert(p@ == path_join(self.data_dir_for(h), "devices"@));
            assert(p@ == self.devices_dir_for(h));
        }
        p
    }

    /// Returns the directory that stores disk images.
    pub fn images_dir(&self) -> (p: String)
        ensures
            exists|home: Option<Seq<char>>| p@ == path_join(self.data_dir_for(home), "images"@),
    {
        let d = self.data_dir();
        let p = join_path(d.as_str(), "images");
        proof {
            let h = choose|h: Option<Seq<char>>| d@ == self.data_dir_for(h);
            assert(p@ == path_join(self.data_dir_for(h), "images"@));
        }
        p
    }

    /// Returns the directory that stores VM snapshots.
    pub fn snapshots_dir(&self) -> (p: String)
        ensures
            exists|home: Option<Seq<char>>| p@ == path_join(self.data_dir_for(home), "snapshots"@),
    {
        let d = self.data_dir();
        let p = join_path(d.as_str(), "snapshots");
        proof {
            let h = choose|h: Option<Seq<char>>| d@ == self.data_dir_for(h);
            assert(p@ == path_join(self.data_dir_for(h), "snapshots"@));
        }
        p
    }

    /// Build a [`DeviceConfig`] with paths resolved against this configuration:
    /// the default device whose disk, kernel, ramdisk and system images all
    /// live in the images directory.
    pub fn default_device_config(&self) -> (c: DeviceConfig)
        ensures
            exists|home: Option<Seq<char>>| {
                let images = path_join(#[trigger] self.data_dir_for(home), "images"@);
                &&& c.storage.userdata_path@ == path_join(images, "userdata.img"@)
                &&& c.storage.cache_path@ == path_join(images, "cache.img"@)
                &&& c.kernel_path@ == path_join(images, "kernel"@)
                &&& c.initramfs_path@ == path_join(images, "ramdisk.img"@)
                &&& c.system_image_path@ == path_join(images, "system.img"@)
            },
            c.name@ == "LiteDroid"@,
            c.vcpu_count == crate::constants::DEFAULT_VCPU_COUNT,
            c.ram_mb == crate::constants::DEFAULT_RAM_MB,
            c.storage.userdata_size_mb == 4096,
            c.storage.cache_size_mb == 1024,
            c.supported_abis@ == seq![crate::types::AndroidAbi::X86_64],
            c.kernel_cmdline@ == crate::constants::DEFAULT_KERNEL_CMDLINE@,
            c.android_version@ == "14"@,
            c.api_level == 34,
            c.profile == crate::device::DeviceProfile::Developer,
    {
        let mut config = DeviceConfig::default();
        let images = self.images_dir();
        config.storage.userdata_path = join_path(images.as_str(), "userdata.img");
        config.storage.cache_path = join_path(images.as_str(), "cache.img");
        config.kernel_path = join_path(images.as_str(), "kernel");
        config.initramfs_path = join_path(images.as_str(), "ramdisk.img");
        config.system_image_path = join_path(images.as_str(), "system.img");
        proof {
            let h = choose|h: Option<Seq<char>>| images@ == path_join(self.data_dir_for(h), "images"@);
            assert(images@ == path_join(self.data_dir_for(h), "images"@));
        }
        config
    }
}

/// A device profile read back from its metadata: the default device renamed
/// to `name`, with the API level, RAM size and vCPU count that the metadata
/// records (each only where it does; numbers are cut to 32 bits where the
/// field is narrower).
pub fn apply_profile_metadata(
    device: &mut DeviceConfig,
    name: String,
    api_level: Option<u64>,
    ram_mb: Option<u64>,
    vcpu_count: Option<u64>,
)
    ensures
        *final(device) == (DeviceConfig {
            name,
            api_level: match api_level {
                Some(a) => a as u32,
                None => old(device).api_level,
            },
            ram_mb: match ram_mb {
                Some(r) => r,
                None => old(device).ram_mb,
            },
            vcpu_count: match vcpu_count {
                Some(c) => c as u32,
                None => old(device).vcpu_count,
            },
            ..*old(device)
        }),
{
    device.name = name;
    if let Some(a) = api_level {
        device.api_level = a as u32;
    }
    if let Some(r) = ram_mb {
        device.ram_mb = r;
    }
    if let Some(c) = vcpu_count {
        device.vcpu_count = c as u32;
    }
}

} // verus!
