//! Bookkeeping of a download in progress: how much has arrived, and the size
//! limit that some downloads enforce.
use vstd::prelude::*;
use crate::numeric::{decimal, u64_to_decimal};

verus! {

broadcast use vstd::string::group_string_axioms;

/// The most a Flash Player download may bring: 500 MiB.
pub const MAX_DOWNLOAD_SIZE: u64 = 500 * 1024 * 1024;

/// Why a download was abandoned.
pub open spec fn too_large_message(total: u64) -> Seq<char> {
    "Remote file too large: "@ + decimal(total as nat) + " bytes"@
}

/// What becomes of a downloaded archive.
#[derive(Debug, PartialEq, Eq, Structural)]
pub enum Unpack {
    /// The download is the program itself.
    Keep,
    /// A gzip-compressed tar archive, unpacked into the target directory.
    TarGz,
    /// A zip archive, unpacked into the target directory.
    Zip,
    /// A disk image whose application bundle is copied into the target directory.
    Dmg,
}

/// A download in progress.
pub struct Transfer {
    /// Bytes received so far.
    pub downloaded: u64,
    /// The size the server announced (0 when it announced none).
    pub total: u64,
    /// The most the download may bring, when it is limited.
    pub limit: Option<u64>,
}

impl Transfer {
    /// Within its limit, if it has one.
    pub open spec fn within_limit(self) -> bool {
        match self.limit {
            Some(l) => self.downloaded <= l,
            None => true,
        }
    }

    /// Starts a download whose server announced `total` bytes (0 when it
    /// announced none). A limited download whose announced size exceeds the
    /// limit is refused before anything is written.
    pub fn start(total: u64, limit: Option<u64>) -> (res: Result<Transfer, String>)
        ensures
            match limit {
                Some(l) if total > l => res matches Err(e) && e@ == too_large_message(total),
                _ => res matches Ok(t) && t.downloaded == 0 && t.total == total && t.limit
                    == limit,
            },
    {
        if let Some(l) = limit {
            if total > l {
                let mut msg = String::from_str("Remote file too large: ");
                msg.append(u64_to_decimal(total).as_str());
                msg.append(" bytes");
                return Err(msg);
            }
        }
        Ok(Transfer { downloaded: 0, total, limit })
    }

    /// Counts a chunk of `len` bytes. Fails, once the limit is passed, with
    /// the error the download reports (the partial file is then removed).
    pub fn record_chunk(&mut self, len: u64) -> (res: Result<(), String>)
        requires
            old(self).downloaded + len <= u64::MAX,
        ensures
            final(self).downloaded == old(self).downloaded + len,
            final(self).total == old(self).total,
            final(self).limit == old(self).limit,
            res is Ok <==> final(self).within_limit(),
            res matches Err(e) ==> e@ == "Download exceeded maximum allowed size"@,
    {
        self.downloaded = self.downloaded + len;
        match self.limit {
            Some(l) => {
                if self.downloaded > l {
                    Err(String::from_str("Download exceeded maximum allowed size"))
                } else {
                    Ok(())
                }
            },
            None => Ok(()),
        }
    }
}

} // verus!
