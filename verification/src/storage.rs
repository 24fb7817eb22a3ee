use vstd::prelude::*;

verus! {

/// Size of one storage block, in bytes, for every device class.
pub const BLOCK_SIZE: usize = 512;

/// Capacity policy of the primary-flash class: a conservative fixed ceiling
/// of 25 MiB, reflecting a known field limitation, in 512-byte blocks.
pub const EMIC_CAP_BLOCKS: u64 = 25 * 1024 * 1024 / 512;

/// Capacity policy of the removable-card class: the largest capacity a
/// legacy partition table can address (2.2 TB), in 512-byte blocks.
pub const SD_CAP_BLOCKS: u64 = 11 * (1024u64 * 1024 * 1024 * 1024) / 5 / 512;

/// Errors of the storage subsystem.
#[derive(Debug, Clone, Copy, PartialEq, Eq, Structural)]
pub enum StorageError {
    InitializationError,
    ReadError,
    WriteError,
    InvalidLba,
    InvalidBufferLength,
    NotInitialized,
    UnsupportedDevice,
    CommandError,
    Timeout,
}

/// The name under which a `StorageError` is reported on the console.
pub open spec fn storage_error_name(e: StorageError) -> Seq<char> {
    match e {
        StorageError::InitializationError => "InitializationError"@,
        StorageError::ReadError => "ReadError"@,
        StorageError::WriteError => "WriteError"@,
        StorageError::InvalidLba => "InvalidLba"@,
        StorageError::InvalidBufferLength => "InvalidBufferLength"@,
        StorageError::NotInitialized => "NotInitialized"@,
        StorageError::UnsupportedDevice => "UnsupportedDevice"@,
        StorageError::CommandError => "CommandError"@,
        StorageError::Timeout => "Timeout"@,
    }
}

impl StorageError {
    /// The printable name of this error.
    pub fn name(&self) -> (r: &'static str)
        ensures
            r@ == storage_error_name(*self),
    {
        match self {
            StorageError::InitializationError => "InitializationError",
            StorageError::ReadError => "ReadError",
            StorageError::WriteError => "WriteError",
            StorageError::InvalidLba => "InvalidLba",
            StorageError::InvalidBufferLength => "InvalidBufferLength",
            StorageError::NotInitialized => "NotInitialized",
            StorageError::UnsupportedDevice => "UnsupportedDevice",
            StorageError::CommandError => "CommandError",
            StorageError::Timeout => "Timeout",
        }
    }
}

/// The block count a device ends up with: the smaller of what the device
/// reports and what the class's capacity policy allows.
pub open spec fn capped_blocks(reported: u64, cap: u64) -> u64 {
    if reported <= cap {
        reported
    } else {
        cap
    }
}

/// How a device answers a single-block request: the recorded state and the
/// request are checked, in this order, before the medium could be touched.
pub open spec fn request_outcome(blocks: Option<u64>, lba: u64, len: nat) -> Result<
    (),
    StorageError,
> {
    match blocks {
        None => Err(StorageError::NotInitialized),
        Some(n) => if lba >= n {
            Err(StorageError::InvalidLba)
        } else if len < BLOCK_SIZE {
            Err(StorageError::InvalidBufferLength)
        } else {
            Ok(())
        },
    }
}

/// The uniform contract of a block-storage backend.
///
/// A device starts out unprobed; `init` records the effective capacity, the
/// smaller of the device-reported block count and the class's policy cap.
/// `read_block` and `write_block` check every request against the recorded
/// state before anything else happens: a request that fails the checks
/// reports an error without the medium or the caller's buffer being touched.
/// The 512-byte transfer itself is the transport's work, below this layer.
pub trait BlockDevice: Sized {
    spec fn initialized(&self) -> bool;

    spec fn blocks(&self) -> Option<u64>;

    /// The class's policy cap, in blocks: configuration, not a
    /// hardware-derived figure.
    spec fn cap() -> u64;

    /// A device is well formed when the capacity is recorded exactly for
    /// initialized devices and never exceeds the policy cap.
    open spec fn wf(&self) -> bool {
        &&& self.initialized() <==> self.blocks() is Some
        &&& self.blocks() is Some ==> self.blocks()->Some_0 <= Self::cap()
    }

    /// Record the outcome of a successful hardware probe that reported
    /// `reported_blocks` blocks; the effective capacity is capped by policy.
    fn init(&mut self, reported_blocks: u64) -> (r: Result<u64, StorageError>)
        requires
            old(self).wf(),
            !old(self).initialized(),
        ensures
            final(self).wf(),
            final(self).initialized(),
            final(self).blocks() == Some(capped_blocks(reported_blocks, Self::cap())),
            r == Ok::<u64, StorageError>(capped_blocks(reported_blocks, Self::cap())),
    ;

    /// Validate and account a single-block read into `buffer[0..512]`.
    ///
    /// A rejected request leaves the buffer exactly as it was; an accepted
    /// one fills the first 512 bytes from the medium (their values are the
    /// device's, not promised here) and leaves the rest untouched.
    fn read_block(&mut self, lba: u64, buffer: &mut Vec<u8>) -> (r: Result<(), StorageError>)
        requires
            old(self).wf(),
        ensures
            *final(self) == *old(self),
            final(buffer)@.len() == old(buffer)@.len(),
            r == request_outcome(old(self).blocks(), lba, old(buffer)@.len()),
            r is Err ==> final(buffer)@ == old(buffer)@,
            r is Ok ==> final(buffer)@.skip(BLOCK_SIZE as int) == old(buffer)@.skip(
                BLOCK_SIZE as int,
            ),
    ;

    /// Validate and account a single-block write of `data[0..512]`.
    fn write_block(&mut self, lba: u64, data: &Vec<u8>) -> (r: Result<(), StorageError>)
        requires
            old(self).wf(),
        ensures
            *final(self) == *old(self),
            r == request_outcome(old(self).blocks(), lba, data@.len()),
    ;

    /// `None` before a successful `init`; stable afterwards.
    fn block_count(&self) -> (r: Option<u64>)
        ensures
            r == self.blocks(),
    ;
}

/// The primary-flash backend.
pub struct EmicStorage {
    is_initialized: bool,
    total_blocks: Option<u64>,
}

impl EmicStorage {
    pub fn new() -> (d: EmicStorage)
        ensures
            d.wf(),
            !d.initialized(),
            d.blocks() is None,
    {
        EmicStorage { is_initialized: false, total_blocks: None }
    }
}

impl BlockDevice for EmicStorage {
    closed spec fn initialized(&self) -> bool {
        self.is_initialized
    }

    closed spec fn blocks(&self) -> Option<u64> {
        self.total_blocks
    }

    open spec fn cap() -> u64 {
        EMIC_CAP_BLOCKS
    }

    fn init(&mut self, reported_blocks: u64) -> (r: Result<u64, StorageError>) {
        let effective: u64 = if reported_blocks <= EMIC_CAP_BLOCKS {
            reported_blocks
        } else {
            EMIC_CAP_BLOCKS
        };
        self.total_blocks = Some(effective);
        self.is_initialized = true;
        Ok(effective)
    }

    fn read_block(&mut self, lba: u64, buffer: &mut Vec<u8>) -> (r: Result<(), StorageError>) {
        match self.total_blocks {
            None => Err(StorageError::NotInitialized),
            Some(n) => {
                if lba >= n {
                    Err(StorageError::InvalidLba)
                } else if buffer.len() < BLOCK_SIZE {
                    Err(StorageError::InvalidBufferLength)
                } else {
                    Ok(())
                }
            },
        }
    }

    fn write_block(&mut self, lba: u64, data: &Vec<u8>) -> (r: Result<(), StorageError>) {
        match self.total_blocks {
            None => Err(StorageError::NotInitialized),
            Some(n) => {
                if lba >= n {
                    Err(StorageError::InvalidLba)
                } else if data.len() < BLOCK_SIZE {
                    Err(StorageError::InvalidBufferLength)
                } else {
                    Ok(())
                }
            },
        }
    }

    fn block_count(&self) -> (r: Option<u64>) {
        self.total_blocks
    }
}

/// The removable-card backend.
pub struct SdCardStorage {
    is_initialized: bool,
    total_blocks: Option<u64>,
}

impl SdCardStorage {
    pub fn new() -> (d: SdCardStorage)
        ensures
            d.wf(),
            !d.initialized(),
            d.blocks() is None,
    {
        SdCardStorage { is_initialized: false, total_blocks: None }
    }
}

impl BlockDevice for SdCardStorage {
    closed spec fn initialized(&self) -> bool {
        self.is_initialized
    }

    closed spec fn blocks(&self) -> Option<u64> {
        self.total_blocks
    }

    open spec fn cap() -> u64 {
        SD_CAP_BLOCKS
    }

    fn init(&mut self, reported_blocks: u64) -> (r: Result<u64, StorageError>) {
        let effective: u64 = if reported_blocks <= SD_CAP_BLOCKS {
            reported_blocks
        } else {
            SD_CAP_BLOCKS
        };
        self.total_blocks = Some(effective);
        self.is_initialized = true;
        Ok(effective)
    }

    fn read_block(&mut self, lba: u64, buffer: &mut Vec<u8>) -> (r: Result<(), StorageError>) {
        match self.total_blocks {
            None => Err(StorageError::NotInitialized),
            Some(n) => {
                if lba >= n {
                    Err(StorageError::InvalidLba)
                } else if buffer.len() < BLOCK_SIZE {
                    Err(StorageError::InvalidBufferLength)
                } else {
                    Ok(())
                }
            },
        }
    }

    fn write_block(&mut self, lba: u64, data: &Vec<u8>) -> (r: Result<(), StorageError>) {
        match self.total_blocks {
            None => Err(StorageError::NotInitialized),
            Some(n) => {
                if lba >= n {
                    Err(StorageError::InvalidLba)
                } else if data.len() < BLOCK_SIZE {
                    Err(StorageError::InvalidBufferLength)
                } else {
                    Ok(())
                }
            },
        }
    }

    fn block_count(&self) -> (r: Option<u64>) {
        self.total_blocks
    }
}

/// The fixed, closed set of device identities the registry knows.
#[derive(Debug, Clone, Copy, PartialEq, Eq, Structural)]
pub enum DeviceId {
    PrimaryFlash,
    RemovableCard,
}

/// The registry of probed storage devices.
///
/// Populated once during boot from the probe outcomes; an entry is `None`
/// exactly when probing that device failed, and entries are not replaced
/// afterwards.
pub struct StorageRegistry {
    pub emic: Option<EmicStorage>,
    pub sd: Option<SdCardStorage>,
}

impl StorageRegistry {
    /// Every present device is well formed and initialized.
    pub open spec fn wf(&self) -> bool {
        &&& self.emic is Some ==> self.emic->Some_0.wf() && self.emic->Some_0.initialized()
        &&& self.sd is Some ==> self.sd->Some_0.wf() && self.sd->Some_0.initialized()
    }

    /// An empty registry: no device probed yet.
    pub fn new() -> (r: StorageRegistry)
        ensures
            r.wf(),
            r.emic is None,
            r.sd is None,
    {
        StorageRegistry { emic: None, sd: None }
    }

    /// Whether the named device slot is populated.
    pub fn is_present(&self, id: DeviceId) -> (r: bool)
        ensures
            r == match id {
                DeviceId::PrimaryFlash => self.emic is Some,
                DeviceId::RemovableCard => self.sd is Some,
            },
    {
        match id {
            DeviceId::PrimaryFlash => self.emic.is_some(),
            DeviceId::RemovableCard => self.sd.is_some(),
        }
    }

    /// The recorded block count of the named device, `None` if it is absent.
    pub fn block_count_of(&self, id: DeviceId) -> (r: Option<u64>)
        ensures
            r == match id {
                DeviceId::PrimaryFlash => if self.emic is Some {
                    self.emic->Some_0.blocks()
                } else {
                    None::<u64>
                },
                DeviceId::RemovableCard => if self.sd is Some {
                    self.sd->Some_0.blocks()
                } else {
                    None::<u64>
                },
            },
    {
        match id {
            DeviceId::PrimaryFlash => match &self.emic {
                Some(d) => d.block_count(),
                None => None,
            },
            DeviceId::RemovableCard => match &self.sd {
                Some(d) => d.block_count(),
                None => None,
            },
        }
    }
}

/// The recorded capacity of a well-formed primary-flash device never exceeds
/// the 25 MiB policy ceiling, whatever the hardware reported.
pub proof fn lemma_emic_capacity_policy(d: EmicStorage)
    requires
        d.wf(),
        d.blocks() is Some,
    ensures
        d.blocks()->Some_0 <= 25 * 1024 * 1024 / 512,
{
}

/// The recorded capacity of a well-formed removable-card device never
/// exceeds the legacy-partition-table ceiling of 2.2 TB, whatever the card
/// reported.
pub proof fn lemma_sd_capacity_policy(d: SdCardStorage)
    requires
        d.wf(),
        d.blocks() is Some,
    ensures
        d.blocks()->Some_0 <= 11 * (1024u64 * 1024 * 1024 * 1024) / 5 / 512,
{
}

/// The one officially non-fatal boot stage: each device class is probed
/// independently, a failed probe is recorded as an absent device, and no
/// failure ever escalates — a machine with one populated slot still boots.
///
/// A probe argument carries the block count the hardware reported, or `None`
/// where the probe itself failed.
pub fn init_storage_devices(emic_probe: Option<u64>, sd_probe: Option<u64>) -> (r: Result<
    (Option<EmicStorage>, Option<SdCardStorage>),
    StorageError,
>)
    ensures
        r is Ok,
        ({
            let (emic, sd) = r->Ok_0;
            &&& emic is Some <==> emic_probe is Some
            &&& sd is Some <==> sd_probe is Some
            &&& emic is Some ==> emic->Some_0.wf() && emic->Some_0.initialized()
                && emic->Some_0.blocks() == Some(
                capped_blocks(emic_probe->Some_0, EMIC_CAP_BLOCKS),
            )
            &&& sd is Some ==> sd->Some_0.wf() && sd->Some_0.initialized() && sd->Some_0.blocks()
                == Some(capped_blocks(sd_probe->Some_0, SD_CAP_BLOCKS))
        }),
{
    let initialized_emic = match emic_probe {
        Some(reported) => {
            let mut device = EmicStorage::new();
            let _ = device.init(reported);
            Some(device)
        },
        None => None,
    };
    let initialized_sd = match sd_probe {
        Some(reported) => {
            let mut device = SdCardStorage::new();
            let _ = device.init(reported);
            Some(device)
        },
        None => None,
    };
    Ok((initialized_emic, initialized_sd))
}

} // verus!
