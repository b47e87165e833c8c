//! How an engine is configured: buffer size, buffer backing and transfer model.
use vstd::prelude::*;

verus! {

/// The size of a huge page.
pub const HUGE_PAGE_SIZE: usize = 2097152;

/// Where the pattern buffer's memory comes from.
#[derive(Clone, Copy, Debug, PartialEq, Eq, Structural)]
pub enum Backing {
    /// Any allocation, with no alignment beyond the natural one.
    Ordinary,
    /// An allocation aligned to the buffer's size, with a hint that large
    /// pages should back it.
    HugePage,
}

/// The flags of a zero-copy transfer, as an explicit choice.
#[derive(Clone, Copy, Debug, PartialEq, Eq, Structural)]
pub enum SpliceFlags {
    /// Neither gifting nor non-blocking.
    Plain,
    /// The kernel may take ownership of the pages.
    Gift,
    /// Fail at once instead of waiting while the pipe is full.
    NonBlocking,
    /// Both of the above.
    GiftNonBlocking,
}

impl SpliceFlags {
    /// Whether the pages are handed to the kernel.
    pub fn gift(&self) -> (r: bool)
        ensures
            r == (*self is Gift || *self is GiftNonBlocking),
    {
        match self {
            SpliceFlags::Gift | SpliceFlags::GiftNonBlocking => true,
            _ => false,
        }
    }

    /// Whether a full pipe fails the transfer instead of blocking it.
    pub fn non_blocking(&self) -> (r: bool)
        ensures
            r == (*self is NonBlocking || *self is GiftNonBlocking),
    {
        match self {
            SpliceFlags::NonBlocking | SpliceFlags::GiftNonBlocking => true,
            _ => false,
        }
    }
}

/// How the buffer reaches the output descriptor.
#[derive(Clone, Copy, Debug, PartialEq, Eq, Structural)]
pub enum TransferModel {
    /// A write that copies the bytes into the kernel.
    Copying,
    /// A transfer that moves the buffer's pages into a pipe.
    Splice { flags: SpliceFlags },
}

/// The configuration of one engine.
#[derive(Clone, Copy, Debug, PartialEq, Eq, Structural)]
pub struct EngineConfig {
    /// The pattern buffer's length in bytes.
    pub size: usize,
    pub backing: Backing,
    pub model: TransferModel,
}

impl EngineConfig {
    /// A usable configuration: a buffer of positive even length, a whole
    /// number of huge pages when huge pages back it.
    pub open spec fn wf(&self) -> bool {
        &&& self.size > 0
        &&& self.size % 2 == 0
        &&& self.backing is HugePage ==> self.size % HUGE_PAGE_SIZE == 0
    }

    /// Whether this configuration is usable.
    pub fn is_valid(&self) -> (r: bool)
        ensures
            r == self.wf(),
    {
        self.size > 0 && self.size % 2 == 0 && (match self.backing {
            Backing::HugePage => self.size % HUGE_PAGE_SIZE == 0,
            Backing::Ordinary => true,
        })
    }

    /// A configuration from its parts, or `None` where they are not usable.
    pub fn new(size: usize, backing: Backing, model: TransferModel) -> (r: Option<EngineConfig>)
        ensures
            r == (if (EngineConfig { size, backing, model }).wf() {
                Some(EngineConfig { size, backing, model })
            } else {
                None
            }),
    {
        let c = EngineConfig { size, backing, model };
        if c.is_valid() {
            Some(c)
        } else {
            None
        }
    }

    /// Small buffer, copying writes.
    pub fn plain_write() -> (r: EngineConfig)
        ensures
            r.wf(),
            r == (EngineConfig { size: 1024, backing: Backing::Ordinary, model: TransferModel::Copying }),
    {
        EngineConfig { size: 1024, backing: Backing::Ordinary, model: TransferModel::Copying }
    }

    /// One mebibyte, zero-copy transfers.
    pub fn splice() -> (r: EngineConfig)
        ensures
            r.wf(),
            r == (EngineConfig {
                size: 1048576,
                backing: Backing::Ordinary,
                model: TransferModel::Splice { flags: SpliceFlags::Plain },
            }),
    {
        EngineConfig {
            size: 1048576,
            backing: Backing::Ordinary,
            model: TransferModel::Splice { flags: SpliceFlags::Plain },
        }
    }

    /// One huge page, zero-copy transfers.
    pub fn huge_page_splice() -> (r: EngineConfig)
        ensures
            r.wf(),
            r == (EngineConfig {
                size: HUGE_PAGE_SIZE,
                backing: Backing::HugePage,
                model: TransferModel::Splice { flags: SpliceFlags::Plain },
            }),
    {
        EngineConfig {
            size: HUGE_PAGE_SIZE,
            backing: Backing::HugePage,
            model: TransferModel::Splice { flags: SpliceFlags::Plain },
        }
    }

    /// The alignment that the buffer's allocation asks for: the buffer's size
    /// for huge pages, 1 otherwise.
    pub fn alignment(&self) -> (r: usize)
        ensures
            r == (if self.backing is HugePage {
                self.size
            } else {
                1
            }),
    {
        match self.backing {
            Backing::HugePage => self.size,
            Backing::Ordinary => 1,
        }
    }

    /// Whether the allocation should be hinted to use huge pages.
    pub fn wants_huge_pages(&self) -> (r: bool)
        ensures
            r == self.backing is HugePage,
    {
        match self.backing {
            Backing::HugePage => true,
            Backing::Ordinary => false,
        }
    }

    /// The pipe capacity to ask for before transferring: the buffer's size
    /// for zero-copy transfers, none for copying writes.
    pub fn pipe_capacity(&self) -> (r: Option<usize>)
        ensures
            r == (if self.model is Splice {
                Some(self.size)
            } else {
                None::<usize>
            }),
    {
        match self.model {
            TransferModel::Splice { .. } => Some(self.size),
            TransferModel::Copying => None,
        }
    }
}

} // verus!
