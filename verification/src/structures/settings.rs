//! The settings of a run.

use crate::structures::elements::{Elements, ElementsView};
use vstd::prelude::*;
use vstd::string::*;

verus! {

/// How the remote store is addressed: the bucket in the path of the URL, or
/// in its host name.
#[derive(Clone, Copy, Debug, PartialEq, Eq, Structural)]
pub enum S3PathStyle {
    Path,
    VirtualHost,
}

/// The configuration of a run: the remote store, the local staging root and
/// the elements, in the order in which they are worked.
#[derive(Clone, Debug, PartialEq, Eq)]
pub struct Settings {
    pub s3_endpoint: String,
    pub s3_region: String,
    pub s3_bucket: String,
    pub s3_access: String,
    pub s3_secret: String,
    pub s3_path_style: S3PathStyle,
    pub backup_dir: String,
    pub elements: Vec<Elements>,
}

/// A `Settings` with its texts as sequences of characters and its elements
/// by their views.
pub struct SettingsView {
    pub s3_endpoint: Seq<char>,
    pub s3_region: Seq<char>,
    pub s3_bucket: Seq<char>,
    pub s3_access: Seq<char>,
    pub s3_secret: Seq<char>,
    pub s3_path_style: S3PathStyle,
    pub backup_dir: Seq<char>,
    pub elements: Seq<ElementsView>,
}

impl View for Settings {
    type V = SettingsView;

    open spec fn view(&self) -> SettingsView {
        SettingsView {
            s3_endpoint: self.s3_endpoint@,
            s3_region: self.s3_region@,
            s3_bucket: self.s3_bucket@,
            s3_access: self.s3_access@,
            s3_secret: self.s3_secret@,
            s3_path_style: self.s3_path_style,
            backup_dir: self.backup_dir@,
            elements: Seq::new(self.elements@.len(), |i: int| self.elements@[i]@),
        }
    }
}

/// What it takes to open the bucket of the remote store.
#[derive(Clone, Debug, PartialEq, Eq)]
pub struct BucketConfig {
    pub name: String,
    pub region: String,
    pub endpoint: String,
    pub access_key: String,
    pub secret_key: String,
    /// The bucket stands in the path of the URL, not in the host name.
    pub path_style: bool,
}

/// A `BucketConfig` with its texts as sequences of characters.
pub struct BucketConfigView {
    pub name: Seq<char>,
    pub region: Seq<char>,
    pub endpoint: Seq<char>,
    pub access_key: Seq<char>,
    pub secret_key: Seq<char>,
    pub path_style: bool,
}

impl View for BucketConfig {
    type V = BucketConfigView;

    open spec fn view(&self) -> BucketConfigView {
        BucketConfigView {
            name: self.name@,
            region: self.region@,
            endpoint: self.endpoint@,
            access_key: self.access_key@,
            secret_key: self.secret_key@,
            path_style: self.path_style,
        }
    }
}

impl SettingsView {
    /// The bucket that the configuration names.
    pub open spec fn bucket(self) -> BucketConfigView {
        BucketConfigView {
            name: self.s3_bucket,
            region: self.s3_region,
            endpoint: self.s3_endpoint,
            access_key: self.s3_access,
            secret_key: self.s3_secret,
            path_style: self.s3_path_style == S3PathStyle::Path,
        }
    }

    /// The staging directory of the element at `position`: its title under
    /// the staging root.
    pub open spec fn staging_dir_text(self, position: int) -> Seq<char> {
        self.backup_dir + "/"@ + self.elements[position].element_title
    }

    /// The directory that receives the backups fetched for a restore.
    pub open spec fn restore_dir_text(self) -> Seq<char> {
        self.backup_dir + "/to_restore"@
    }

    /// No two elements of the configuration have the same title.
    pub open spec fn titles_distinct(self) -> bool {
        forall|i: int, j: int|
            0 <= i < j < self.elements.len() ==> (#[trigger] self.elements[i]).element_title != (
            #[trigger] self.elements[j]).element_title
    }
}

impl Settings {
    /// Describes the bucket of the remote store: its name, the custom region
    /// made of region and endpoint, the credentials, and the addressing
    /// style.
    pub fn get_bucket(&self) -> (r: BucketConfig)
        ensures
            r@ == self@.bucket(),
    {
        BucketConfig {
            name: self.s3_bucket.clone(),
            region: self.s3_region.clone(),
            endpoint: self.s3_endpoint.clone(),
            access_key: self.s3_access.clone(),
            secret_key: self.s3_secret.clone(),
            path_style: match self.s3_path_style {
                S3PathStyle::Path => true,
                S3PathStyle::VirtualHost => false,
            },
        }
    }

    /// The staging directory of the element at `position`.
    pub fn staging_dir(&self, position: usize) -> (r: String)
        requires
            position < self.elements@.len(),
        ensures
            r@ == self@.staging_dir_text(position as int),
    {
        let mut r: String = self.backup_dir.clone();
        r.append("/");
        r.append(self.elements[position].element_title.as_str());
        r
    }

    /// The directory that receives the backups fetched for a restore.
    pub fn restore_dir(&self) -> (r: String)
        ensures
            r@ == self@.restore_dir_text(),
    {
        let mut r: String = self.backup_dir.clone();
        r.append("/to_restore");
        r
    }

    /// Tells whether no two elements of the configuration have the same
    /// title, as a configuration should have it: the title names the staging
    /// directory and the artifacts of an element.
    pub fn has_distinct_titles(&self) -> (r: bool)
        ensures
            r == self@.titles_distinct(),
    {
        let mut j: usize = 0;
        while j < self.elements.len()
            invariant
                j <= self.elements@.len(),
                forall|a: int, b: int|
                    0 <= a < b < j ==> (#[trigger] self@.elements[a]).element_title != (
                    #[trigger] self@.elements[b]).element_title,
            decreases self.elements@.len() - j,
        {
            let mut i: usize = 0;
            while i < j
                invariant
                    i <= j < self.elements@.len(),
                    forall|a: int|
                        0 <= a < i ==> (#[trigger] self@.elements[a]).element_title
                            != self@.elements[j as int].element_title,
                decreases j - i,
            {
                if self.elements[i].element_title == self.elements[j].element_title {
                    proof {
                        assert(self@.elements[i as int].element_title
                            == self@.elements[j as int].element_title);
                    }
                    return false;
                }
                i += 1;
            }
            j += 1;
        }
        true
    }
}

/// Elements with different titles are staged apart: in a configuration
/// without a repeated title no two elements share a staging directory.
pub proof fn law_elements_are_staged_apart(settings: SettingsView, first: int, second: int)
    requires
        settings.titles_distinct(),
        0 <= first < settings.elements.len(),
        0 <= second < settings.elements.len(),
        first != second,
    ensures
        settings.staging_dir_text(first) != settings.staging_dir_text(second),
{
    let lead = settings.backup_dir + "/"@;
    let one = settings.elements[first].element_title;
    let other = settings.elements[second].element_title;
    if first < second {
        assert(one != other);
    } else {
        assert(other != one);
    }
    assert((lead + one).skip(lead.len() as int) =~= one);
    assert((lead + other).skip(lead.len() as int) =~= other);
}

} // verus!
