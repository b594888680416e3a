//! An album's pending work: whether it needs processing at all, and the file packets
//! that processing it consists of.

use vstd::prelude::*;

use super::file::{file_packet_of, FilePacketError, FileWorkPacket, FileWorkPacketView};
use crate::cached::CachedValue;
use crate::commands::transcode::directories::{
    album_info_of, AlbumDirectoryInfo, AlbumDirectoryInfoView, NotAnAlbumPath,
};
use crate::commands::transcode::meta::{diff_of, paths_unique, LibraryMeta, MetaEntry};
use crate::configuration::base::Configuration;

verus! {

/// Why an album packet cannot answer.
#[derive(Clone, Copy, Debug, PartialEq, Eq, Structural)]
pub enum AlbumPacketError {
    /// The saved snapshot has not been looked for yet. The packet needs to be told
    /// what the album directory holds of it, be it nothing.
    SavedMetaNotLoaded,
    /// The fresh snapshot has not been taken yet.
    FreshMetaNotLoaded,
    /// No file packet can be made for the file at position `index` of the fresh
    /// snapshot.
    InvalidFile { index: usize, error: FilePacketError },
}

/// A snapshot to be written to an album directory.
#[derive(Debug, PartialEq, Eq)]
pub struct MetaSave {
    /// The album directory.
    pub directory_path: String,
    /// What is to be written.
    pub meta: LibraryMeta,
    /// Whether a snapshot that is already there may be overwritten.
    pub allow_overwrite: bool,
}

/// An album together with its two snapshots, each of which is supplied at most once:
/// the saved one, which the album directory holds from the last successful run, if
/// there was one, and the fresh one, which says what the directory holds now.
pub struct AlbumWorkPacket {
    pub album_info: AlbumDirectoryInfo,
    cached_saved_meta: CachedValue<Option<LibraryMeta>>,
    cached_fresh_meta: CachedValue<LibraryMeta>,
}

/// The mathematical value of an [`AlbumWorkPacket`].
pub ghost struct AlbumWorkPacketView {
    pub album_info: AlbumDirectoryInfoView,
    /// `None` until the saved snapshot has been supplied; then what was found: no
    /// snapshot, or one.
    pub saved_meta: Option<Option<Seq<MetaEntry>>>,
    /// `None` until the fresh snapshot has been supplied.
    pub fresh_meta: Option<Seq<MetaEntry>>,
}

impl AlbumWorkPacketView {
    /// The snapshots that have been supplied record no path twice.
    pub open spec fn wf(self) -> bool {
        &&& self.saved_meta matches Some(Some(saved)) ==> paths_unique(saved)
        &&& self.fresh_meta matches Some(fresh) ==> paths_unique(fresh)
    }

    /// Whether the album needs processing: it does where no saved snapshot exists,
    /// whatever the fresh one holds, and else where the two snapshots differ.
    pub open spec fn needs_processing(self) -> Result<bool, AlbumPacketError> {
        match self.saved_meta {
            None => Err(AlbumPacketError::SavedMetaNotLoaded),
            Some(None) => Ok(true),
            Some(Some(saved)) => match self.fresh_meta {
                None => Err(AlbumPacketError::FreshMetaNotLoaded),
                Some(fresh) => Ok(diff_of(saved, fresh).has_any_changes()),
            },
        }
    }

    /// The packet for the file at position `index` of the fresh snapshot.
    pub open spec fn file_packet(self, index: int, configuration: Configuration) -> Result<
        FileWorkPacketView,
        FilePacketError,
    > {
        file_packet_of(self.fresh_meta->0[index].path, self.album_info, configuration)
    }

    /// The position of the first file of the fresh snapshot for which no packet can
    /// be made, or the number of files where there is none.
    pub open spec fn first_invalid_file(self, configuration: Configuration) -> int {
        first_invalid(self, configuration, self.fresh_meta->0.len() as int)
    }
}

/// The position of the first of the first `count` files of the fresh snapshot for
/// which no packet can be made, or `count` where there is none.
pub open spec fn first_invalid(
    packet: AlbumWorkPacketView,
    configuration: Configuration,
    count: int,
) -> int
    decreases count,
{
    if count <= 0 {
        0
    } else {
        let before = first_invalid(packet, configuration, count - 1);
        if before < count - 1 {
            before
        } else if packet.file_packet(count - 1, configuration) is Err {
            count - 1
        } else {
            count
        }
    }
}

impl View for AlbumWorkPacket {
    type V = AlbumWorkPacketView;

    closed spec fn view(&self) -> AlbumWorkPacketView {
        AlbumWorkPacketView {
            album_info: self.album_info@,
            saved_meta: match self.cached_saved_meta@ {
                None => None,
                Some(None) => Some(None),
                Some(Some(meta)) => Some(Some(meta@)),
            },
            fresh_meta: match self.cached_fresh_meta@ {
                None => None,
                Some(meta) => Some(meta@),
            },
        }
    }
}

impl AlbumWorkPacket {
    /// The snapshots that have been supplied record no path twice. Every packet that
    /// this module hands out is well formed, and every operation keeps it so.
    pub open spec fn wf(&self) -> bool {
        self@.wf()
    }

    /// The packet for the album directory at `album_directory_path`, with no snapshot
    /// supplied yet. Fails where the path does not name a library, an artist and an
    /// album.
    pub fn from_album_path(album_directory_path: &str) -> (result: Result<
        AlbumWorkPacket,
        NotAnAlbumPath,
    >)
        ensures
            match result {
                Ok(packet) => {
                    &&& packet.wf()
                    &&& album_info_of(album_directory_path@) == Some(packet@.album_info)
                    &&& packet@.saved_meta is None
                    &&& packet@.fresh_meta is None
                },
                Err(_) => album_info_of(album_directory_path@) is None,
            },
    {
        match AlbumDirectoryInfo::new(album_directory_path) {
            Ok(directory_info) => Ok(AlbumWorkPacket::from_album_info(directory_info)),
            Err(error) => Err(error),
        }
    }

    /// The packet for the album `album_directory_info`, with no snapshot supplied yet.
    pub fn from_album_info(album_directory_info: AlbumDirectoryInfo) -> (packet: AlbumWorkPacket)
        ensures
            packet.wf(),
            packet@ == (AlbumWorkPacketView {
                album_info: album_directory_info@,
                saved_meta: None,
                fresh_meta: None,
            }),
    {
        AlbumWorkPacket {
            album_info: album_directory_info,
            cached_saved_meta: CachedValue::new_empty(),
            cached_fresh_meta: CachedValue::new_empty(),
        }
    }

    /// The path of the album directory.
    pub fn get_album_directory_path(&self) -> (path: String)
        ensures
            path@ == self@.album_info.directory_path(),
    {
        self.album_info.directory_path()
    }

    /// Supplies what the album directory holds of a saved snapshot: `None` where it
    /// holds none. Only the first call counts; later ones change nothing.
    pub fn set_saved_meta(&mut self, saved_meta: Option<LibraryMeta>)
        requires
            old(self).wf(),
            saved_meta matches Some(meta) ==> meta.wf(),
        ensures
            final(self).wf(),
            final(self)@ == (if old(self)@.saved_meta is Some {
                old(self)@
            } else {
                AlbumWorkPacketView {
                    saved_meta: Some(
                        match saved_meta {
                            Some(meta) => Some(meta@),
                            None => None,
                        },
                    ),
                    ..old(self)@
                }
            }),
    {
        self.cached_saved_meta.set(saved_meta);
    }

    /// Supplies the fresh snapshot. Only the first call counts; later ones change
    /// nothing.
    pub fn set_fresh_meta(&mut self, fresh_meta: LibraryMeta)
        requires
            old(self).wf(),
            fresh_meta.wf(),
        ensures
            final(self).wf(),
            final(self)@ == (if old(self)@.fresh_meta is Some {
                old(self)@
            } else {
                AlbumWorkPacketView { fresh_meta: Some(fresh_meta@), ..old(self)@ }
            }),
    {
        self.cached_fresh_meta.set(fresh_meta);
    }

    /// The saved snapshot, or `None` where the album directory holds none. Fails
    /// until it has been supplied.
    pub fn get_saved_meta(&self) -> (result: Result<Option<&LibraryMeta>, AlbumPacketError>)
        ensures
            match result {
                Ok(Some(meta)) => self@.saved_meta == Some(Some(meta@)),
                Ok(None) => self@.saved_meta == Some(None::<Seq<MetaEntry>>),
                Err(error) => error == AlbumPacketError::SavedMetaNotLoaded && self@.saved_meta
                    is None,
            },
    {
        if self.cached_saved_meta.is_cached() {
            Ok(self.cached_saved_meta.get().as_ref())
        } else {
            Err(AlbumPacketError::SavedMetaNotLoaded)
        }
    }

    /// The fresh snapshot. Fails until it has been supplied.
    pub fn get_fresh_meta(&self) -> (result: Result<&LibraryMeta, AlbumPacketError>)
        ensures
            match result {
                Ok(meta) => self@.fresh_meta == Some(meta@),
                Err(error) => error == AlbumPacketError::FreshMetaNotLoaded && self@.fresh_meta
                    is None,
            },
    {
        if self.cached_fresh_meta.is_cached() {
            Ok(self.cached_fresh_meta.get())
        } else {
            Err(AlbumPacketError::FreshMetaNotLoaded)
        }
    }

    /// The snapshot to supply next, if one is still missing: the saved one first, then
    /// the fresh one.
    pub fn next_missing_meta(&self) -> (missing: Option<AlbumPacketError>)
        ensures
            missing == (if self@.saved_meta is None {
                Some(AlbumPacketError::SavedMetaNotLoaded)
            } else if self@.fresh_meta is None {
                Some(AlbumPacketError::FreshMetaNotLoaded)
            } else {
                None
            }),
            missing is None ==> self@.needs_processing() is Ok,
    {
        if !self.cached_saved_meta.is_cached() {
            Some(AlbumPacketError::SavedMetaNotLoaded)
        } else if !self.cached_fresh_meta.is_cached() {
            Some(AlbumPacketError::FreshMetaNotLoaded)
        } else {
            None
        }
    }

    /// Whether the album needs processing: it does where the album directory holds no
    /// saved snapshot, whatever the fresh one holds, and else where the saved and the
    /// fresh snapshot differ. Fails until the snapshots that the answer rests on have
    /// been supplied.
    pub fn needs_processing(&self) -> (result: Result<bool, AlbumPacketError>)
        requires
            self.wf(),
        ensures
            result == self@.needs_processing(),
            self@.saved_meta == Some(None::<Seq<MetaEntry>>) ==> result == Ok::<
                bool,
                AlbumPacketError,
            >(true),
    {
        let saved_meta = match self.get_saved_meta() {
            Ok(saved_meta) => saved_meta,
            Err(error) => {
                return Err(error);
            },
        };
        match saved_meta {
            None => Ok(true),
            Some(saved_meta) => {
                let fresh_meta = match self.get_fresh_meta() {
                    Ok(fresh_meta) => fresh_meta,
                    Err(error) => {
                        return Err(error);
                    },
                };
                let meta_diff = saved_meta.diff(fresh_meta);
                Ok(meta_diff.has_any_changes())
            },
        }
    }

    /// The number of files that the fresh snapshot records. Fails until it has been
    /// supplied.
    pub fn get_total_track_count(&self) -> (result: Result<usize, AlbumPacketError>)
        ensures
            match result {
                Ok(count) => self@.fresh_meta matches Some(fresh) && count == fresh.len(),
                Err(error) => error == AlbumPacketError::FreshMetaNotLoaded && self@.fresh_meta
                    is None,
            },
    {
        match self.get_fresh_meta() {
            Ok(fresh_meta) => Ok(fresh_meta.len()),
            Err(error) => Err(error),
        }
    }

    /// The fresh snapshot as it is to be written to the album directory. Whoever
    /// processes the album calls this once every file packet has succeeded, and only
    /// then. Fails until the fresh snapshot has been supplied.
    pub fn save_fresh_meta(&self, allow_overwrite: bool) -> (result: Result<
        MetaSave,
        AlbumPacketError,
    >)
        ensures
            match result {
                Ok(save) => {
                    &&& self@.fresh_meta == Some(save.meta@)
                    &&& save.directory_path@ == self@.album_info.directory_path()
                    &&& save.allow_overwrite == allow_overwrite
                },
                Err(error) => error == AlbumPacketError::FreshMetaNotLoaded && self@.fresh_meta
                    is None,
            },
    {
        match self.get_fresh_meta() {
            Ok(fresh_meta) => Ok(
                MetaSave {
                    directory_path: self.get_album_directory_path(),
                    meta: fresh_meta.clone(),
                    allow_overwrite,
                },
            ),
            Err(error) => Err(error),
        }
    }
}

/// The views of the packets of a vector, in order.
pub open spec fn packet_views(packets: Seq<FileWorkPacket>) -> Seq<FileWorkPacketView> {
    packets.map_values(|packet: FileWorkPacket| packet@)
}

impl AlbumWorkPacketView {
    /// The file packets of the album: none where it needs no processing, else one for
    /// each file of the fresh snapshot, in its order, whether that file has changed or
    /// not. Where no packet can be made for some file, the first such file is reported.
    pub open spec fn work_packets(self, configuration: Configuration) -> Result<
        Seq<FileWorkPacketView>,
        AlbumPacketError,
    > {
        match self.needs_processing() {
            Err(error) => Err(error),
            Ok(false) => Ok(Seq::empty()),
            Ok(true) => match self.fresh_meta {
                None => Err(AlbumPacketError::FreshMetaNotLoaded),
                Some(fresh) => {
                    let invalid = self.first_invalid_file(configuration);
                    if invalid < fresh.len() {
                        Err(
                            AlbumPacketError::InvalidFile {
                                index: invalid as usize,
                                error: self.file_packet(invalid, configuration)->Err_0,
                            },
                        )
                    } else {
                        Ok(
                            Seq::new(
                                fresh.len(),
                                |i: int| self.file_packet(i, configuration)->Ok_0,
                            ),
                        )
                    }
                },
            },
        }
    }
}

/// Once a file is found for which no packet can be made, it stays the first such file
/// however many more files are looked at.
pub proof fn lemma_first_invalid_stays(
    packet: AlbumWorkPacketView,
    configuration: Configuration,
    count: int,
    more: int,
)
    requires
        0 <= count <= more,
        first_invalid(packet, configuration, count) < count,
    ensures
        first_invalid(packet, configuration, more) == first_invalid(packet, configuration, count),
    decreases more - count,
{
    if count < more {
        lemma_first_invalid_stays(packet, configuration, count, more - 1);
    }
}

impl AlbumWorkPacket {
    /// The file packets of the album: none where it needs no processing, else one for
    /// each file of the fresh snapshot, in its order, whether that file has changed or
    /// not. Fails until the snapshots that the answer rests on have been supplied, and
    /// where no packet can be made for some file.
    pub fn get_work_packets(&self, config: &Configuration) -> (result: Result<
        Vec<FileWorkPacket>,
        AlbumPacketError,
    >)
        requires
            self.wf(),
        ensures
            match result {
                Ok(packets) => self@.work_packets(*config) == Ok::<
                    Seq<FileWorkPacketView>,
                    AlbumPacketError,
                >(packet_views(packets@)),
                Err(error) => self@.work_packets(*config) == Err::<
                    Seq<FileWorkPacketView>,
                    AlbumPacketError,
                >(error),
            },
            result matches Ok(packets) ==> packets.len() == (if self@.needs_processing() == Ok::<
                bool,
                AlbumPacketError,
            >(true) {
                self@.fresh_meta->0.len()
            } else {
                0
            }),
    {
        let needs_processing = match self.needs_processing() {
            Ok(needs_processing) => needs_processing,
            Err(error) => {
                return Err(error);
            },
        };
        let mut file_packets: Vec<FileWorkPacket> = Vec::new();
        if !needs_processing {
            assert(packet_views(file_packets@) =~= Seq::empty());
            return Ok(file_packets);
        }
        let fresh_meta = match self.get_fresh_meta() {
            Ok(fresh_meta) => fresh_meta,
            Err(error) => {
                return Err(error);
            },
        };
        let files = fresh_meta.files();
        let ghost fresh = self@.fresh_meta->0;
        let mut i: usize = 0;
        while i < files.len()
            invariant
                i <= files.len(),
                self@.fresh_meta == Some(fresh),
                self@.needs_processing() == Ok::<bool, AlbumPacketError>(true),
                crate::commands::transcode::meta::entries_of(files@) == fresh,
                first_invalid(self@, *config, i as int) == i,
                packet_views(file_packets@) == Seq::new(
                    i as nat,
                    |k: int| self@.file_packet(k, *config)->Ok_0,
                ),
            decreases files.len() - i,
        {
            let ghost before = packet_views(file_packets@);
            match FileWorkPacket::new(files[i].0.as_str(), &self.album_info, config) {
                Ok(file_packet) => {
                    file_packets.push(file_packet);
                    assert(packet_views(file_packets@) =~= before.push(file_packet@));
                },
                Err(error) => {
                    proof {
                        lemma_first_invalid_stays(self@, *config, i + 1, fresh.len() as int);
                    }
                    return Err(AlbumPacketError::InvalidFile { index: i, error });
                },
            }
            i += 1;
        }
        Ok(file_packets)
    }
}

/// Processing an album again gives the same answers as long as nothing has changed:
/// two packets of the same album with the same saved and the same fresh snapshot
/// agree on whether the album needs processing and on its file packets, and so on
/// their number. A failed batch, after which no snapshot is saved, is therefore
/// followed by the same batch in the next run.
pub proof fn lemma_unchanged_album_repeats(
    first: AlbumWorkPacketView,
    second: AlbumWorkPacketView,
    configuration: Configuration,
)
    requires
        first.album_info == second.album_info,
        first.saved_meta == second.saved_meta,
        first.fresh_meta == second.fresh_meta,
    ensures
        first.needs_processing() == second.needs_processing(),
        first.work_packets(configuration) == second.work_packets(configuration),
        first.work_packets(configuration) matches Ok(packets) ==> second.work_packets(
            configuration,
        )->Ok_0.len() == packets.len(),
{
}

/// An album whose saved snapshot equals the fresh one needs no processing: once the
/// fresh snapshot has been saved, the next run finds the album up to date.
pub proof fn lemma_saved_album_is_up_to_date(packet: AlbumWorkPacketView, configuration: Configuration)
    requires
        packet.wf(),
        packet.fresh_meta matches Some(fresh) && packet.saved_meta == Some(Some(fresh)),
    ensures
        packet.needs_processing() == Ok::<bool, AlbumPacketError>(false),
        packet.work_packets(configuration) == Ok::<Seq<FileWorkPacketView>, AlbumPacketError>(
            Seq::empty(),
        ),
{
    crate::commands::transcode::meta::lemma_diff_of_identical(packet.fresh_meta->0);
}

} // verus!
