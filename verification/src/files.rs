//! Files in the z/OS UNIX file system: the requests that list, read, write,
//! copy, move, link, tag and change them, and the answers to them.

pub mod access_control_list;
pub mod change_mode;
pub mod change_owner;
pub mod copy;
pub mod copy_dataset;
pub mod create;
pub mod delete;
pub mod extra_attributes;
pub mod link;
pub mod list;
pub mod list_tag;
pub mod owner;
pub mod read;
pub mod remove_tag;
pub mod rename;
pub mod set_tag;
pub mod tags;
pub mod unlink;
pub mod write;

use vstd::prelude::*;

use crate::text::{chars_of, extend_str};

use self::access_control_list::FileGetAccessControlListBuilder;
use self::change_mode::FileChangeModeBuilder;
use self::copy::CopyBuilder;
use self::copy_dataset::FileCopyDatasetBuilder;
use self::create::FileCreateBuilder;
use self::delete::FileDeleteBuilder;
use self::extra_attributes::reset::FileExtraAttributesResetBuilder;
use self::extra_attributes::set::SetBuilder;
use self::extra_attributes::ExtraAttributesBuilder;
use self::link::{LinkBuilder, LinkType};
use self::list::FilesBuilder;
use self::list_tag::FileListTagBuilder;
use self::owner::ChangeOwnerBuilder;
use self::read::FileReadBuilder;
use self::rename::FileRenameBuilder;
use self::set_tag::FileSetTagBuilder;
use self::tags::remove::FileTagsRemoveBuilder;
use self::unlink::FileUnlinkBuilder;
use self::write::WriteBuilder;

verus! {

/// How the data of a file is read or written.
#[derive(Clone, Copy, Debug, PartialEq, Eq, Structural, Hash)]
pub enum FileDataType {
    Binary,
    Text,
}

impl FileDataType {
    /// The name of this value in requests and answers.
    pub open spec fn text(self) -> Seq<char> {
        match self {
            FileDataType::Binary => "binary"@,
            FileDataType::Text => "text"@,
        }
    }

    /// The name of this value in requests and answers.
    pub fn as_str(&self) -> (r: &'static str)
        ensures
            r@ == self.text(),
    {
        match self {
            FileDataType::Binary => "binary",
            FileDataType::Text => "text",
        }
    }
}

/// The kind of data that a file tag declares.
#[derive(Clone, Copy, Debug, PartialEq, Eq, Structural, Hash)]
pub enum FileTagType {
    Binary,
    Mixed,
    Text,
}

impl FileTagType {
    /// The name of this value in requests and answers.
    pub open spec fn text(self) -> Seq<char> {
        match self {
            FileTagType::Binary => "binary"@,
            FileTagType::Mixed => "mixed"@,
            FileTagType::Text => "text"@,
        }
    }

    /// The name of this value in requests and answers.
    pub fn as_str(&self) -> (r: &'static str)
        ensures
            r@ == self.text(),
    {
        match self {
            FileTagType::Binary => "binary",
            FileTagType::Mixed => "mixed",
            FileTagType::Text => "text",
        }
    }
}

/// How a change of tag treats symbolic links.
#[derive(Clone, Copy, Debug, PartialEq, Eq, Structural, Hash)]
pub enum FileTagLinks {
    Change,
    Suppress,
}

impl FileTagLinks {
    /// The name of this value in requests and answers.
    pub open spec fn text(self) -> Seq<char> {
        match self {
            FileTagLinks::Change => "change"@,
            FileTagLinks::Suppress => "suppress"@,
        }
    }

    /// The name of this value in requests and answers.
    pub fn as_str(&self) -> (r: &'static str)
        ensures
            r@ == self.text(),
    {
        match self {
            FileTagLinks::Change => "change",
            FileTagLinks::Suppress => "suppress",
        }
    }
}

/// How the removal of tags treats symbolic links.
#[derive(Clone, Copy, Debug, PartialEq, Eq, Structural, Hash)]
pub enum FileTagsLinks {
    Change,
    Suppress,
}

impl FileTagsLinks {
    /// The name of this value in requests and answers.
    pub open spec fn text(self) -> Seq<char> {
        match self {
            FileTagsLinks::Change => "change"@,
            FileTagsLinks::Suppress => "suppress"@,
        }
    }

    /// The name of this value in requests and answers.
    pub fn as_str(&self) -> (r: &'static str)
        ensures
            r@ == self.text(),
    {
        match self {
            FileTagsLinks::Change => "change",
            FileTagsLinks::Suppress => "suppress",
        }
    }
}

/// The path of a file's resource: `/zosmf/restfiles/fs` followed by the
/// file's path.
pub open spec fn fs_path(path: Seq<char>) -> Seq<char> {
    "/zosmf/restfiles/fs"@ + path
}

/// The path of a file's resource.
pub fn write_fs_path(path: &str) -> (r: Vec<char>)
    ensures
        r@ == fs_path(path@),
{
    let mut v = chars_of("/zosmf/restfiles/fs");
    extend_str(&mut v, path);
    v
}

/// The requests on files of one z/OSMF server.
#[derive(Clone, Debug)]
pub struct FilesClient {
    pub base_url: String,
}

impl FilesClient {
    /// A client for the server at `base_url`.
    pub fn new(base_url: String) -> (r: FilesClient)
        ensures
            r.base_url == base_url,
    {
        FilesClient { base_url }
    }

    /// Reads the access control list of a file.
    pub fn access_control_list(&self, path: &str) -> (r: FileGetAccessControlListBuilder)
        ensures
            r.is_new(self.base_url@, path@),
    {
        FileGetAccessControlListBuilder::new(self.base_url.clone(), path)
    }

    /// Changes the mode of a file.
    pub fn change_mode(&self, path: &str, mode: &str) -> (r: FileChangeModeBuilder)
        ensures
            r.is_new(self.base_url@, path@, mode@),
    {
        FileChangeModeBuilder::new(self.base_url.clone(), path, mode)
    }

    /// Changes the owner of a file.
    pub fn change_owner(&self, path: &str, owner: &str) -> (r: ChangeOwnerBuilder)
        ensures
            r.is_new(self.base_url@, path@, owner@),
    {
        ChangeOwnerBuilder::new(self.base_url.clone(), path, owner)
    }

    /// Copies a file or a directory.
    pub fn copy(&self, from_path: &str, to_path: &str) -> (r: CopyBuilder)
        ensures
            r.is_new(self.base_url@, from_path@, to_path@),
    {
        CopyBuilder::new(self.base_url.clone(), from_path, to_path)
    }

    /// Copies a dataset into a file.
    pub fn copy_dataset(&self, from_dataset: &str, to_path: &str) -> (r: FileCopyDatasetBuilder)
        ensures
            r.is_new(self.base_url@, from_dataset@, to_path@),
    {
        FileCopyDatasetBuilder::new(self.base_url.clone(), from_dataset, to_path)
    }

    /// Creates a file or a directory.
    pub fn create(&self, path: &str) -> (r: FileCreateBuilder)
        ensures
            r.is_new(self.base_url@, path@),
    {
        FileCreateBuilder::new(self.base_url.clone(), path)
    }

    /// Deletes a file or a directory.
    pub fn delete(&self, path: &str) -> (r: FileDeleteBuilder)
        ensures
            r.is_new(self.base_url@, path@),
    {
        FileDeleteBuilder::new(self.base_url.clone(), path)
    }

    /// Reads the extra attributes of a file.
    pub fn extra_attributes(&self, path: &str) -> (r: ExtraAttributesBuilder)
        ensures
            r.is_new(self.base_url@, path@),
    {
        ExtraAttributesBuilder::new(self.base_url.clone(), path)
    }

    /// Resets extra attributes of a file.
    pub fn reset_extra_attributes(&self, path: &str) -> (r: FileExtraAttributesResetBuilder)
        ensures
            r.is_new(self.base_url@, path@),
    {
        FileExtraAttributesResetBuilder::new(self.base_url.clone(), path)
    }

    /// Sets extra attributes of a file.
    pub fn set_extra_attributes(&self, path: &str) -> (r: SetBuilder)
        ensures
            r.is_new(self.base_url@, path@),
    {
        SetBuilder::new(self.base_url.clone(), path)
    }

    /// Links `target_path` to `source_path`.
    pub fn link(
        &self,
        link_type: LinkType,
        source_path: &str,
        target_path: &str,
    ) -> (r: LinkBuilder)
        ensures
            r.is_new(self.base_url@, source_path@, target_path@, link_type),
    {
        LinkBuilder::new(self.base_url.clone(), source_path, target_path, link_type)
    }

    /// Lists the files at a path.
    pub fn list(&self, path: &str) -> (r: FilesBuilder)
        ensures
            r.is_new(self.base_url@, path@),
    {
        FilesBuilder::new(self.base_url.clone(), path)
    }

    /// Lists the tags of files.
    pub fn list_tag(&self, path: &str) -> (r: FileListTagBuilder)
        ensures
            r.is_new(self.base_url@, path@),
    {
        FileListTagBuilder::new(self.base_url.clone(), path)
    }

    /// Reads a file.
    pub fn read(&self, path: &str) -> (r: FileReadBuilder)
        ensures
            r.is_new(self.base_url@, path@),
    {
        FileReadBuilder::new(self.base_url.clone(), path)
    }

    /// Removes the tags of files.
    pub fn remove_tag(&self, path: &str) -> (r: FileTagsRemoveBuilder)
        ensures
            r.is_new(self.base_url@, path@),
    {
        FileTagsRemoveBuilder::new(self.base_url.clone(), path)
    }

    /// Moves a file.
    pub fn rename(&self, from_path: &str, to_path: &str) -> (r: FileRenameBuilder)
        ensures
            r.is_new(self.base_url@, from_path@, to_path@),
    {
        FileRenameBuilder::new(self.base_url.clone(), from_path, to_path)
    }

    /// Sets the tag of a file.
    pub fn set_tag(&self, path: &str) -> (r: FileSetTagBuilder)
        ensures
            r.is_new(self.base_url@, path@),
    {
        FileSetTagBuilder::new(self.base_url.clone(), path)
    }

    /// Removes a link.
    pub fn unlink(&self, path: &str) -> (r: FileUnlinkBuilder)
        ensures
            r.is_new(self.base_url@, path@),
    {
        FileUnlinkBuilder::new(self.base_url.clone(), path)
    }

    /// Writes a file.
    pub fn write(&self, path: &str) -> (r: WriteBuilder)
        ensures
            r.is_new(self.base_url@, path@),
    {
        WriteBuilder::new(self.base_url.clone(), path)
    }
}

} // verus!
