//! Where an album lies: the library directory, the artist directory inside it, and
//! the album directory inside that.

use vstd::prelude::*;

use crate::filesystem::{
    file_name, file_name_of, is_component, join_path, joined, lemma_joined_splits, parent,
    parent_of,
};

verus! {

/// The three parts of an album directory's path.
#[derive(Debug, PartialEq, Eq)]
pub struct AlbumDirectoryInfo {
    pub library_path: String,
    pub artist_name: String,
    pub album_title: String,
}

/// The mathematical value of an [`AlbumDirectoryInfo`].
pub ghost struct AlbumDirectoryInfoView {
    pub library_path: Seq<char>,
    pub artist_name: Seq<char>,
    pub album_title: Seq<char>,
}

impl AlbumDirectoryInfoView {
    /// The path of the album directory.
    pub open spec fn directory_path(self) -> Seq<char> {
        joined(joined(self.library_path, self.artist_name), self.album_title)
    }
}

impl View for AlbumDirectoryInfo {
    type V = AlbumDirectoryInfoView;

    open spec fn view(&self) -> AlbumDirectoryInfoView {
        AlbumDirectoryInfoView {
            library_path: self.library_path@,
            artist_name: self.artist_name@,
            album_title: self.album_title@,
        }
    }
}

/// A path that does not lead to an album: it has fewer than three components, or its
/// artist or album component is empty.
#[derive(Clone, Copy, Debug, PartialEq, Eq, Structural)]
pub struct NotAnAlbumPath;

/// The parts of the album directory path `path`: its last component is the album
/// title, the one before it the artist name, and what precedes them the library path.
/// There are none where a component is missing or where artist or title are empty.
pub open spec fn album_info_of(path: Seq<char>) -> Option<AlbumDirectoryInfoView> {
    match parent_of(path) {
        None => None,
        Some(artist_directory) => match parent_of(artist_directory) {
            None => None,
            Some(library_path) => if file_name_of(path).len() == 0 || file_name_of(
                artist_directory,
            ).len() == 0 {
                None
            } else {
                Some(
                    AlbumDirectoryInfoView {
                        library_path,
                        artist_name: file_name_of(artist_directory),
                        album_title: file_name_of(path),
                    },
                )
            },
        },
    }
}

impl AlbumDirectoryInfo {
    /// Takes the path of an album directory apart.
    pub fn new(album_directory_path: &str) -> (result: Result<AlbumDirectoryInfo, NotAnAlbumPath>)
        ensures
            match result {
                Ok(info) => album_info_of(album_directory_path@) == Some(info@),
                Err(_) => album_info_of(album_directory_path@) is None,
            },
    {
        let artist_directory = match parent(album_directory_path) {
            Some(directory) => directory,
            None => {
                return Err(NotAnAlbumPath);
            },
        };
        let library_path = match parent(artist_directory.as_str()) {
            Some(directory) => directory,
            None => {
                return Err(NotAnAlbumPath);
            },
        };
        let album_title = file_name(album_directory_path);
        let artist_name = file_name(artist_directory.as_str());
        if album_title.as_str().unicode_len() == 0 || artist_name.as_str().unicode_len() == 0 {
            return Err(NotAnAlbumPath);
        }
        Ok(AlbumDirectoryInfo { library_path, artist_name, album_title })
    }

    /// The path of the album directory.
    pub fn directory_path(&self) -> (path: String)
        ensures
            path@ == self@.directory_path(),
    {
        let artist_directory = join_path(self.library_path.as_str(), self.artist_name.as_str());
        join_path(artist_directory.as_str(), self.album_title.as_str())
    }
}

/// Taking apart the path of an album directory gives back the parts that it was made
/// of, as long as artist name and album title are not empty and hold no separator.
pub proof fn lemma_album_path_round_trip(info: AlbumDirectoryInfoView)
    requires
        info.artist_name.len() > 0,
        info.album_title.len() > 0,
        is_component(info.artist_name),
        is_component(info.album_title),
    ensures
        album_info_of(info.directory_path()) == Some(info),
{
    let artist_directory = joined(info.library_path, info.artist_name);
    lemma_joined_splits(artist_directory, info.album_title);
    lemma_joined_splits(info.library_path, info.artist_name);
}

impl Clone for AlbumDirectoryInfo {
    fn clone(&self) -> (copy: Self)
        ensures
            copy == *self,
    {
        AlbumDirectoryInfo {
            library_path: self.library_path.clone(),
            artist_name: self.artist_name.clone(),
            album_title: self.album_title.clone(),
        }
    }
}

} // verus!
