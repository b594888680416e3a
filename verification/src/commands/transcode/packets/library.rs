//! A library's pending work: its albums, and those among them that need processing.

use vstd::prelude::*;

use super::album::{AlbumPacketError, AlbumWorkPacket};
use crate::commands::transcode::directories::{AlbumDirectoryInfo, AlbumDirectoryInfoView};

verus! {

/// A library and a packet for each of its albums, in the order in which the albums
/// were discovered.
pub struct LibraryWorkPacket {
    pub name: String,
    pub path: String,
    pub album_packets: Vec<AlbumWorkPacket>,
}

/// An album whose snapshots have not all been supplied.
#[derive(Clone, Copy, Debug, PartialEq, Eq, Structural)]
pub struct AlbumNotReady {
    /// The position of the album in the library packet.
    pub index: usize,
    /// What the album packet is missing.
    pub error: AlbumPacketError,
}

/// Whether the album packet says that its album needs processing.
pub open spec fn in_need_of_processing(packet: AlbumWorkPacket) -> bool {
    packet@.needs_processing() == Ok::<bool, AlbumPacketError>(true)
}

/// The packets that the given references lead to, in order.
pub open spec fn referents(packets: Seq<&AlbumWorkPacket>) -> Seq<AlbumWorkPacket> {
    packets.map_values(|packet: &AlbumWorkPacket| *packet)
}

impl LibraryWorkPacket {
    /// Every album packet is well formed.
    pub open spec fn wf(&self) -> bool {
        forall|i: int| 0 <= i < self.album_packets.len() ==> (#[trigger] self.album_packets[i]).wf()
    }

    /// The packet of the library `library_name` in the directory `library_path`, with
    /// one album packet for each pair of an artist name and an album title, in the
    /// given order. No snapshot is supplied to any of them yet.
    pub fn from_library_path(
        library_name: &str,
        library_path: &str,
        album_directories: Vec<(String, String)>,
    ) -> (packet: LibraryWorkPacket)
        ensures
            packet.wf(),
            packet.name@ == library_name@,
            packet.path@ == library_path@,
            packet.album_packets.len() == album_directories.len(),
            forall|i: int|
                0 <= i < album_directories.len() ==> {
                    &&& (#[trigger] packet.album_packets[i])@.album_info == (AlbumDirectoryInfoView {
                        library_path: library_path@,
                        artist_name: album_directories[i].0@,
                        album_title: album_directories[i].1@,
                    })
                    &&& packet.album_packets[i]@.saved_meta is None
                    &&& packet.album_packets[i]@.fresh_meta is None
                },
    {
        let mut album_packets: Vec<AlbumWorkPacket> = Vec::new();
        let mut i: usize = 0;
        while i < album_directories.len()
            invariant
                i <= album_directories.len(),
                album_packets.len() == i,
                forall|k: int|
                    0 <= k < i ==> {
                        &&& (#[trigger] album_packets[k]).wf()
                        &&& album_packets[k]@.album_info == (AlbumDirectoryInfoView {
                            library_path: library_path@,
                            artist_name: album_directories[k].0@,
                            album_title: album_directories[k].1@,
                        })
                        &&& album_packets[k]@.saved_meta is None
                        &&& album_packets[k]@.fresh_meta is None
                    },
            decreases album_directories.len() - i,
        {
            let album_info = AlbumDirectoryInfo {
                library_path: library_path.to_owned(),
                artist_name: album_directories[i].0.clone(),
                album_title: album_directories[i].1.clone(),
            };
            album_packets.push(AlbumWorkPacket::from_album_info(album_info));
            i += 1;
        }
        LibraryWorkPacket {
            name: library_name.to_owned(),
            path: library_path.to_owned(),
            album_packets,
        }
    }

    /// The albums that need processing, in the order in which the albums were
    /// discovered. Fails where an album packet cannot answer yet, with the first such
    /// album.
    pub fn get_albums_in_need_of_processing(&self) -> (result: Result<
        Vec<&AlbumWorkPacket>,
        AlbumNotReady,
    >)
        requires
            self.wf(),
        ensures
            match result {
                Ok(albums) => {
                    &&& forall|i: int|
                        0 <= i < self.album_packets.len() ==> (#[trigger] self.album_packets[i])@.needs_processing()
                            is Ok
                    &&& referents(albums@) == self.album_packets@.filter(
                        |packet: AlbumWorkPacket| in_need_of_processing(packet),
                    )
                },
                Err(not_ready) => {
                    &&& not_ready.index < self.album_packets.len()
                    &&& self.album_packets[not_ready.index as int]@.needs_processing() == Err::<
                        bool,
                        AlbumPacketError,
                    >(not_ready.error)
                    &&& forall|i: int|
                        0 <= i < not_ready.index ==> (#[trigger] self.album_packets[i])@.needs_processing()
                            is Ok
                },
            },
    {
        let mut albums: Vec<&AlbumWorkPacket> = Vec::new();
        let ghost needy = |packet: AlbumWorkPacket| in_need_of_processing(packet);
        let mut i: usize = 0;
        proof {
            reveal(Seq::filter);
        }
        while i < self.album_packets.len()
            invariant
                self.wf(),
                i <= self.album_packets.len(),
                needy == |packet: AlbumWorkPacket| in_need_of_processing(packet),
                forall|k: int|
                    0 <= k < i ==> (#[trigger] self.album_packets[k])@.needs_processing() is Ok,
                referents(albums@) == self.album_packets@.take(i as int).filter(needy),
            decreases self.album_packets.len() - i,
        {
            let album = &self.album_packets[i];
            proof {
                assert(self.album_packets@.take(i + 1) =~= self.album_packets@.take(i as int).push(
                    *album,
                ));
                self.album_packets@.take(i as int).lemma_filter_push(*album, needy);
            }
            match album.needs_processing() {
                Ok(true) => {
                    albums.push(album);
                },
                Ok(false) => {},
                Err(error) => {
                    return Err(AlbumNotReady { index: i, error });
                },
            }
            i += 1;
        }
        assert(self.album_packets@.take(i as int) =~= self.album_packets@);
        Ok(albums)
    }
}

/// A library with an album whose snapshots have not all been supplied.
#[derive(Clone, Copy, Debug, PartialEq, Eq, Structural)]
pub struct LibraryNotReady {
    /// The position of the library.
    pub library: usize,
    /// The album, and what its packet is missing.
    pub album: AlbumNotReady,
}

/// Whether every album packet of the library can say whether its album needs
/// processing.
pub open spec fn is_ready(library: LibraryWorkPacket) -> bool {
    forall|i: int|
        0 <= i < library.album_packets.len() ==> (#[trigger] library.album_packets[i])@.needs_processing()
            is Ok
}

/// Whether the library has an album that needs processing.
pub open spec fn has_album_in_need(library: LibraryWorkPacket) -> bool {
    library.album_packets@.filter(|packet: AlbumWorkPacket| in_need_of_processing(packet)).len()
        > 0
}

/// The positions among the first `count` of `libraries` of those that have an album
/// in need of processing, in order.
pub open spec fn positions_in_need(libraries: Seq<LibraryWorkPacket>, count: int) -> Seq<usize>
    decreases count,
{
    if count <= 0 {
        Seq::empty()
    } else {
        let before = positions_in_need(libraries, count - 1);
        if has_album_in_need(libraries[count - 1]) {
            before.push((count - 1) as usize)
        } else {
            before
        }
    }
}

/// The positions of the libraries that have at least one album in need of
/// processing, in the order of the libraries. Fails where an album packet cannot
/// answer yet, with the first such library and album.
pub fn libraries_in_need_of_processing(libraries: &Vec<LibraryWorkPacket>) -> (result: Result<
    Vec<usize>,
    LibraryNotReady,
>)
    requires
        forall|i: int| 0 <= i < libraries.len() ==> (#[trigger] libraries[i]).wf(),
    ensures
        match result {
            Ok(positions) => {
                &&& forall|i: int| 0 <= i < libraries.len() ==> is_ready(#[trigger] libraries[i])
                &&& positions@ == positions_in_need(libraries@, libraries.len() as int)
            },
            Err(not_ready) => {
                &&& not_ready.library < libraries.len()
                &&& forall|i: int| 0 <= i < not_ready.library ==> is_ready(#[trigger] libraries[i])
                &&& not_ready.album.index < libraries[not_ready.library as int].album_packets.len()
                &&& libraries[not_ready.library as int].album_packets[not_ready.album.index as int]@.needs_processing()
                    == Err::<bool, AlbumPacketError>(not_ready.album.error)
            },
        },
{
    let mut positions: Vec<usize> = Vec::new();
    let mut i: usize = 0;
    while i < libraries.len()
        invariant
            i <= libraries.len(),
            forall|k: int| 0 <= k < libraries.len() ==> (#[trigger] libraries[k]).wf(),
            forall|k: int| 0 <= k < i ==> is_ready(#[trigger] libraries[k]),
            positions@ == positions_in_need(libraries@, i as int),
        decreases libraries.len() - i,
    {
        match libraries[i].get_albums_in_need_of_processing() {
            Ok(albums) => {
                if albums.len() > 0 {
                    positions.push(i);
                }
            },
            Err(album) => {
                return Err(LibraryNotReady { library: i, album });
            },
        }
        i += 1;
    }
    Ok(positions)
}

} // verus!
