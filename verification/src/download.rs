//! How far a download is, and when that is worth telling.

use crate::error::{ErrorView, UpdateError};
use crate::release;
use crate::text;
use vstd::prelude::*;
use vstd::string::*;

verus! {

/// The bits of the fraction that stands for a whole download.
pub const WHOLE: u32 = 0x3f80_0000;

/// Whether the server hands out an update.
pub fn check_download_status(status: u16) -> (result: Result<(), UpdateError>)
    ensures
        match result {
            Ok(_) => release::success(status),
            Err(error) => !release::success(status) && error@ == (ErrorView::DownloadRefused {
                status,
            }),
        },
{
    if release::is_success(status) {
        Ok(())
    } else {
        Err(UpdateError::DownloadRefused { status })
    }
}

/// Whether the server hands out a remote server.
pub fn check_remote_server_status(status: u16) -> (result: Result<(), UpdateError>)
    ensures
        match result {
            Ok(_) => release::success(status),
            Err(error) => !release::success(status) && error@ == (ErrorView::RemoteServerRefused {
                status,
            }),
        },
{
    if release::is_success(status) {
        Ok(())
    } else {
        Err(UpdateError::RemoteServerRefused { status })
    }
}

/// The size of a download by what the server says of its length, if it says so and there is
/// anything to download.
pub open spec fn total_size(content_length: Option<Seq<char>>) -> Option<u64> {
    match content_length {
        Some(content_length) => match text::parsed_number(content_length, u64::MAX as nat) {
            Some(total) => if total > 0 {
                Some(total as u64)
            } else {
                None
            },
            None => None,
        },
        None => None,
    }
}

/// How much is downloaded of how much.
#[derive(Clone, Copy, Debug, PartialEq, Eq, Structural)]
pub struct Portion {
    pub downloaded_bytes: u64,
    pub total_bytes: u64,
}

/// How far a download is.
#[derive(Clone, Copy, Debug, PartialEq, Eq, Structural)]
pub struct DownloadProgress {
    /// The size of the download, if it is known.
    pub total_bytes: Option<u64>,
    pub downloaded_bytes: u64,
    /// The percentage that was told last.
    pub last_reported_percent: Option<u8>,
}

impl DownloadProgress {
    /// A download that begins.
    pub fn new(content_length: Option<&str>) -> (progress: DownloadProgress)
        ensures
            progress == (DownloadProgress {
                total_bytes: total_size(text::optional_slice(content_length)),
                downloaded_bytes: 0,
                last_reported_percent: None,
            }),
    {
        let total_bytes = match content_length {
            Some(content_length) => match text::parse_number(content_length, u64::MAX) {
                Some(total) => if total > 0 {
                    Some(total)
                } else {
                    None
                },
                None => None,
            },
            None => None,
        };
        DownloadProgress { total_bytes, downloaded_bytes: 0, last_reported_percent: None }
    }

    /// How much is downloaded of how much, where that is known.
    pub open spec fn portion(self) -> Option<Portion> {
        match self.total_bytes {
            Some(total_bytes) => Some(
                Portion { downloaded_bytes: self.downloaded_bytes, total_bytes },
            ),
            None => None,
        }
    }

    /// The download after more was received.
    pub open spec fn with_received(self, bytes_read: usize) -> DownloadProgress {
        DownloadProgress {
            downloaded_bytes: (self.downloaded_bytes + bytes_read) as u64,
            ..self
        }
    }

    /// More is downloaded. Says how much of how much it is now, where that is known.
    pub fn received(&mut self, bytes_read: usize) -> (portion: Option<Portion>)
        requires
            old(self).downloaded_bytes + bytes_read <= u64::MAX,
        ensures
            *final(self) == old(self).with_received(bytes_read),
            portion == final(self).portion(),
    {
        self.downloaded_bytes = self.downloaded_bytes + bytes_read as u64;
        match self.total_bytes {
            Some(total_bytes) => Some(
                Portion { downloaded_bytes: self.downloaded_bytes, total_bytes },
            ),
            None => None,
        }
    }

    /// Whether a percentage is told: only one that differs from the one before, and only where
    /// the size is known.
    pub open spec fn tells(self, percent: u8) -> bool {
        self.total_bytes is Some && self.last_reported_percent != Some(percent)
    }

    /// The download after a percentage was reached.
    pub open spec fn reported(self, percent: u8) -> DownloadProgress {
        if self.tells(percent) {
            DownloadProgress { last_reported_percent: Some(percent), ..self }
        } else {
            self
        }
    }

    /// What is told of a download that is complete: that it is whole, unless that was told.
    pub open spec fn last_word(self) -> Option<u32> {
        if self.total_bytes is Some && self.last_reported_percent != Some(100u8) {
            Some(WHOLE)
        } else {
            None
        }
    }

    /// What to tell of a fraction, given by its bits, that is `percent` per cent.
    pub fn report(&mut self, percent: u8, fraction: u32) -> (told: Option<u32>)
        ensures
            told == if old(self).tells(percent) {
                Some(fraction)
            } else {
                None
            },
            *final(self) == old(self).reported(percent),
    {
        let known = self.total_bytes.is_some();
        let told_before = match self.last_reported_percent {
            Some(last) => last == percent,
            None => false,
        };
        if known && !told_before {
            self.last_reported_percent = Some(percent);
            Some(fraction)
        } else {
            None
        }
    }

    /// What to tell of a download that is complete.
    pub fn finish(&self) -> (told: Option<u32>)
        ensures
            told == self.last_word(),
    {
        let told_whole = match self.last_reported_percent {
            Some(last) => last == 100,
            None => false,
        };
        if self.total_bytes.is_some() && !told_whole {
            Some(WHOLE)
        } else {
            None
        }
    }

    /// The download after some percentages were reached.
    pub open spec fn after(self, percents: Seq<u8>) -> DownloadProgress
        decreases percents.len(),
    {
        if percents.len() == 0 {
            self
        } else {
            self.after(percents.drop_last()).reported(percents.last())
        }
    }

    /// Those of some percentages that are told.
    pub open spec fn told(self, percents: Seq<u8>) -> Seq<u8>
        decreases percents.len(),
    {
        if percents.len() == 0 {
            seq![]
        } else {
            let before = self.told(percents.drop_last());
            if self.after(percents.drop_last()).tells(percents.last()) {
                before.push(percents.last())
            } else {
                before
            }
        }
    }
}

/// The part that is downloaded does not get smaller, whatever is told in between, and its size
/// stays the same.
pub proof fn law_portion_does_not_decrease(
    progress: DownloadProgress,
    percent: u8,
    bytes_read: usize,
)
    requires
        progress.total_bytes is Some,
        progress.downloaded_bytes + bytes_read <= u64::MAX,
    ensures
        ({
            let before = progress.portion()->0;
            let after = progress.reported(percent).with_received(bytes_read).portion()->0;
            before.downloaded_bytes <= after.downloaded_bytes && before.total_bytes
                == after.total_bytes
        }),
{
}

/// No percentage is told twice in a row, and what was told last is remembered.
pub proof fn law_percentage_is_told_once(content_length: Option<Seq<char>>, percents: Seq<u8>)
    ensures
        ({
            let begun = DownloadProgress {
                total_bytes: total_size(content_length),
                downloaded_bytes: 0,
                last_reported_percent: None,
            };
            let told = begun.told(percents);
            &&& forall|i: int| 1 <= i < told.len() ==> #[trigger] told[i] != told[i - 1]
            &&& begun.after(percents).last_reported_percent == if told.len() == 0 {
                None
            } else {
                Some(told.last())
            }
            &&& begun.after(percents).total_bytes == begun.total_bytes
        }),
    decreases percents.len(),
{
    if percents.len() > 0 {
        law_percentage_is_told_once(content_length, percents.drop_last());
    }
}

/// Percentages that do not decrease are told strictly rising, so there are no more of them than
/// there are percentages up to the last one.
pub proof fn law_percentages_rise(content_length: Option<Seq<char>>, percents: Seq<u8>)
    requires
        forall|i: int, j: int| 0 <= i <= j < percents.len() ==> percents[i] <= percents[j],
    ensures
        ({
            let begun = DownloadProgress {
                total_bytes: total_size(content_length),
                downloaded_bytes: 0,
                last_reported_percent: None,
            };
            let told = begun.told(percents);
            &&& forall|i: int, j: int| 0 <= i < j < told.len() ==> told[i] < told[j]
            &&& told.len() > 0 ==> told.last() <= percents.last() && told.len() <= told.last() + 1
            &&& (forall|i: int| 0 <= i < percents.len() ==> percents[i] <= 100) ==> told.len()
                <= 101
        }),
    decreases percents.len(),
{
    if percents.len() > 0 {
        let shorter = percents.drop_last();
        assert forall|i: int, j: int| 0 <= i <= j < shorter.len() implies shorter[i]
            <= shorter[j] by {
            assert(shorter[i] == percents[i] && shorter[j] == percents[j]);
        }
        law_percentages_rise(content_length, shorter);
        law_percentage_is_told_once(content_length, shorter);
        let begun = DownloadProgress {
            total_bytes: total_size(content_length),
            downloaded_bytes: 0,
            last_reported_percent: None,
        };
        let before = begun.told(shorter);
        let told = begun.told(percents);
        if before.len() > 0 {
            assert(shorter.last() == percents[percents.len() - 2]);
            assert(percents[percents.len() - 2] <= percents[percents.len() - 1]);
        }
        assert forall|i: int, j: int| 0 <= i < j < told.len() implies told[i] < told[j] by {
            if j < before.len() {
                assert(told[i] == before[i] && told[j] == before[j]);
            } else {
                assert(told[i] == before[i]);
                if i < before.len() - 1 {
                    assert(before[i] < before[before.len() - 1]);
                }
            }
        }
        if forall|i: int| 0 <= i < percents.len() ==> percents[i] <= 100 {
            assert(percents[percents.len() - 1] <= 100);
        }
    }
}

/// A download whose size is not known tells nothing.
pub proof fn law_unknown_size_tells_nothing(progress: DownloadProgress, percents: Seq<u8>)
    requires
        progress.total_bytes is None,
    ensures
        progress.told(percents).len() == 0,
        progress.after(percents) == progress,
        progress.after(percents).last_word() is None,
    decreases percents.len(),
{
    if percents.len() > 0 {
        law_unknown_size_tells_nothing(progress, percents.drop_last());
    }
}

/// A download whose size is known ends with being whole: that is the last percentage that was
/// told, or is told at the end, and not both.
pub proof fn law_whole_download_is_told(content_length: Option<Seq<char>>, percents: Seq<u8>)
    requires
        total_size(content_length) is Some,
    ensures
        ({
            let begun = DownloadProgress {
                total_bytes: total_size(content_length),
                downloaded_bytes: 0,
                last_reported_percent: None,
            };
            let told = begun.told(percents);
            (begun.after(percents).last_word() == Some(WHOLE)) != (told.len() > 0 && told.last()
                == 100)
        }),
{
    law_percentage_is_told_once(content_length, percents);
}

/// A number above zero that the server gives is the size of the download; zero is none, nor is
/// anything that is no number.
pub proof fn law_size_is_what_the_server_says(size: u64, content_length: Seq<char>)
    ensures
        size > 0 ==> total_size(Some(text::decimal(size as nat))) == Some(size),
        total_size(Some(text::decimal(0))) is None,
        total_size(None) is None,
        text::parsed_number(content_length, u64::MAX as nat) is None ==> total_size(
            Some(content_length),
        ) is None,
        total_size(Some(content_length)) matches Some(total) ==> total > 0 && text::parsed_number(
            content_length,
            u64::MAX as nat,
        ) == Some(total as nat),
{
    text::law_decimal_parses_back(size as nat, u64::MAX as nat);
    text::law_decimal_parses_back(0, u64::MAX as nat);
}

/// Where the size is known every percentage is told that differs from the one before it, the first
/// one in any case; one that does not differ is not told.
pub proof fn law_new_percentage_is_told(progress: DownloadProgress, percents: Seq<u8>, percent: u8)
    requires
        progress.total_bytes is Some,
        progress.last_reported_percent is None,
    ensures
        percents.len() == 0 || percents.last() != percent ==> progress.told(percents.push(percent))
            == progress.told(percents).push(percent),
        percents.len() > 0 && percents.last() == percent ==> progress.told(percents.push(percent))
            == progress.told(percents),
{
    lemma_last_percentage_is_remembered(progress, percents);
    assert(percents.push(percent).drop_last() =~= percents);
}

/// The percentage that was reached last is the one that was told last.
proof fn lemma_last_percentage_is_remembered(progress: DownloadProgress, percents: Seq<u8>)
    requires
        progress.total_bytes is Some,
        progress.last_reported_percent is None,
    ensures
        progress.after(percents).total_bytes is Some,
        progress.after(percents).last_reported_percent == if percents.len() == 0 {
            None
        } else {
            Some(percents.last())
        },
    decreases percents.len(),
{
    if percents.len() > 0 {
        lemma_last_percentage_is_remembered(progress, percents.drop_last());
    }
}

/// What is received adds up, in one piece or in two, and changes nothing else.
pub proof fn law_received_bytes_add_up(progress: DownloadProgress, first: usize, second: usize)
    requires
        progress.downloaded_bytes + first + second <= u64::MAX,
    ensures
        ({
            let after = progress.with_received(first).with_received(second);
            &&& after.downloaded_bytes == progress.downloaded_bytes + first + second
            &&& after.total_bytes == progress.total_bytes
            &&& after.last_reported_percent == progress.last_reported_percent
            &&& after.portion() is Some <==> progress.total_bytes is Some
            &&& after.portion() matches Some(portion) ==> portion.downloaded_bytes
                == after.downloaded_bytes && Some(portion.total_bytes) == progress.total_bytes
        }),
{
}

} // verus!
