//! The volume mounter trait: a persistent volume claim for a volume of a component.
use vstd::prelude::*;
use crate::json::JsonValue;
use crate::schematic::component::{AccessMode, Component, SharingPolicy, Volume, volumes_of};
use crate::schematic::traits::util::{OwnerRefs, get_property, opt_json, property, str_value};
use crate::strings::{eq_ignore_ascii_case, spec_eq_ignore_ascii_case};
use crate::strmap::{StrMap, opt_view};
use crate::workload_type::{Labels, ObjectMeta, copy_owner_refs, owners_view};

verus! {

/// PVCs must have a minimum size. However, the OAM model
/// does not require volume size be specified. This is the
/// default if no size is specified.
pub const DEFAULT_VOLUME_SIZE: &'static str = "200M";

/// The VolumeMounter trait provisions volumes that can
/// be mounted by a Component.
#[derive(Debug)]
pub struct VolumeMounter {
    /// The app configuration name
    pub name: String,
    /// The instance name for this component
    pub instance_name: String,
    /// The component name
    pub component_name: String,
    /// The owner reference (usually of the component instance).
    /// This should be attached to any Kubernetes resources that this trait creates.
    pub owner_ref: OwnerRefs,
    /// The component that we are attaching to
    pub component: Component,
    /// The name
    pub volume_name: String,
    /// The name of the storage class to which this will derive a PVC
    pub storage_class: String,
}

/// The specification of a persistent volume claim.
#[derive(Debug)]
pub struct PersistentVolumeClaimSpec {
    pub access_modes: Option<Vec<String>>,
    pub storage_class_name: Option<String>,
    /// The resources requested, by name.
    pub requests: Option<StrMap<String>>,
}

/// A persistent volume claim.
#[derive(Debug)]
pub struct PersistentVolumeClaim {
    pub metadata: ObjectMeta,
    pub spec: Option<PersistentVolumeClaimSpec>,
}

/// A volume is the one a volume mounter names, in any case of ASCII letters.
pub open spec fn names_volume(volume_name: Seq<char>, v: Volume) -> bool {
    spec_eq_ignore_ascii_case(volume_name, v.name@)
}

/// The volume at position `vi` of container `ci` is the first that a volume
/// mounter names, in container order and then volume order.
pub open spec fn first_named_volume(cs: Seq<crate::schematic::component::Container>, name: Seq<char>, ci: int, vi: int) -> bool {
    &&& 0 <= ci < cs.len()
    &&& 0 <= vi < volumes_of(cs[ci]).len()
    &&& names_volume(name, volumes_of(cs[ci])[vi])
    &&& forall|c: int, j: int|
        0 <= c < ci && 0 <= j < volumes_of(cs[c]).len() ==> !names_volume(name, #[trigger] volumes_of(cs[c])[j])
    &&& forall|j: int| 0 <= j < vi ==> !names_volume(name, #[trigger] volumes_of(cs[ci])[j])
}

/// The access mode of a claim for a volume: read-only-many for a read-only
/// volume, read-write-many for a shared one, read-write-once otherwise and
/// where there is no volume.
pub open spec fn spec_mount_policy(volume: Option<Volume>) -> Seq<char> {
    match volume {
        Some(v) => match v.access_mode {
            AccessMode::RO => "ReadOnlyMany"@,
            AccessMode::RW => match v.sharing_policy {
                SharingPolicy::Shared => "ReadWriteMany"@,
                _ => "ReadWriteOnce"@,
            },
        },
        None => "ReadWriteOnce"@,
    }
}

/// The labels of a volume mounter's claim.
pub open spec fn spec_volume_labels(name: Seq<char>, component_name: Seq<char>, instance_name: Seq<char>) -> Map<Seq<char>, Seq<char>> {
    Map::empty().insert("app"@, name).insert("component-name"@, component_name).insert(
        "instance-name"@,
        instance_name,
    ).insert("trait"@, "volume-mounter"@)
}

/// A text property, where given as a string; empty text otherwise.
pub open spec fn str_or_empty(v: Option<crate::json::Json>) -> Seq<char> {
    match str_value(v) {
        Some(s) => s,
        None => Seq::empty(),
    }
}

fn str_property(props: Option<&JsonValue>, key: &str) -> (r: String)
    ensures
        r@ == str_or_empty(property(opt_json(props), key@)),
{
    match get_property(props, key) {
        Some(v) => match v.as_str() {
            Some(s) => s.clone(),
            None => String::new(),
        },
        None => String::new(),
    }
}

/// A volume mounter made from the properties of its trait: `volumeName` and
/// `storageClass`, empty where they are not strings.
pub open spec fn volume_mounter_from_properties(
    v: VolumeMounter,
    name: Seq<char>,
    instance_name: Seq<char>,
    component_name: Seq<char>,
    props: Option<crate::json::Json>,
    owners: Option<Seq<crate::instigator::OwnerReference>>,
) -> bool {
    &&& v.name@ == name
    &&& v.instance_name@ == instance_name
    &&& v.component_name@ == component_name
    &&& owners_view(v.owner_ref) == owners
    &&& v.volume_name@ == str_or_empty(property(props, "volumeName"@))
    &&& v.storage_class@ == str_or_empty(property(props, "storageClass"@))
}

impl VolumeMounter {
    /// A volume mounter from the properties of its trait: `volumeName` and
    /// `storageClass`, empty where they are not strings.
    pub fn from_properties(
        name: String,
        instance_name: String,
        component_name: String,
        properties_map: Option<&JsonValue>,
        owner_ref: OwnerRefs,
        component: Component,
    ) -> (v: VolumeMounter)
        ensures
            volume_mounter_from_properties(
                v,
                name@,
                instance_name@,
                component_name@,
                opt_json(properties_map),
                owners_view(owner_ref),
            ),
            v.component == component,
    {
        VolumeMounter {
            name,
            component_name,
            instance_name,
            owner_ref,
            component,
            volume_name: str_property(properties_map, "volumeName"),
            storage_class: str_property(properties_map, "storageClass"),
        }
    }

    /// The labels of the claim.
    pub fn labels(&self) -> (l: Labels)
        ensures
            l@ == spec_volume_labels(self.name@, self.component_name@, self.instance_name@),
    {
        let mut labels: Labels = StrMap::new();
        labels.insert("app".to_string(), self.name.clone());
        labels.insert("component-name".to_string(), self.component_name.clone());
        labels.insert("instance-name".to_string(), self.instance_name.clone());
        labels.insert("trait".to_string(), "volume-mounter".to_string());
        labels
    }

    /// Locate the volume that this mounter is supposed to attach: the first
    /// whose name matches, ignoring ASCII case.
    pub fn find_volume(&self) -> (r: Option<&Volume>)
        ensures
            match r {
                Some(v) => exists|ci: int, vi: int|
                    first_named_volume(self.component.containers@, self.volume_name@, ci, vi) && *v == volumes_of(
                        self.component.containers@[ci],
                    )[vi],
                None => forall|ci: int, vi: int|
                    0 <= ci < self.component.containers@.len() && 0 <= vi < volumes_of(
                        self.component.containers@[ci],
                    ).len() ==> !names_volume(self.volume_name@, #[trigger] volumes_of(self.component.containers@[ci])[vi]),
            },
    {
        let cs = &self.component.containers;
        let n = cs.len();
        let mut ci: usize = 0;
        while ci < n
            invariant
                n == cs@.len(),
                cs@ == self.component.containers@,
                ci <= n,
                forall|c: int, j: int|
                    0 <= c < ci && 0 <= j < volumes_of(cs@[c]).len() ==> !names_volume(
                        self.volume_name@,
                        #[trigger] volumes_of(cs@[c])[j],
                    ),
            decreases n - ci,
        {
            match &cs[ci].resources.volumes {
                Some(vols) => {
                    let m = vols.len();
                    let mut vi: usize = 0;
                    while vi < m
                        invariant
                            n == cs@.len(),
                            cs@ == self.component.containers@,
                            ci < n,
                            m == vols@.len(),
                            vols@ == volumes_of(cs@[ci as int]),
                            vi <= m,
                            forall|c: int, j: int|
                                0 <= c < ci && 0 <= j < volumes_of(cs@[c]).len() ==> !names_volume(
                                    self.volume_name@,
                                    #[trigger] volumes_of(cs@[c])[j],
                                ),
                            forall|j: int| 0 <= j < vi ==> !names_volume(self.volume_name@, #[trigger] vols@[j]),
                        decreases m - vi,
                    {
                        if eq_ignore_ascii_case(self.volume_name.as_str(), vols[vi].name.as_str()) {
                            assert(first_named_volume(self.component.containers@, self.volume_name@, ci as int, vi as int));
                            return Some(&vols[vi]);
                        }
                        vi = vi + 1;
                    }
                },
                None => {},
            }
            ci = ci + 1;
        }
        None
    }

    /// The access mode of the claim for a volume.
    pub fn mount_policy(&self, volume: Option<&Volume>) -> (s: String)
        ensures
            s@ == spec_mount_policy(
                match volume {
                    Some(v) => Some(*v),
                    None => None,
                },
            ),
    {
        match volume {
            Some(vol) => match vol.access_mode {
                AccessMode::RO => "ReadOnlyMany".to_string(),
                AccessMode::RW => match vol.sharing_policy {
                    SharingPolicy::Shared => "ReadWriteMany".to_string(),
                    _ => "ReadWriteOnce".to_string(),
                },
            },
            None => "ReadWriteOnce".to_string(),
        }
    }

    /// The claim for the volume: named as the volume, of the volume's disk
    /// size (or the default size), with the access mode its policy gives.
    pub fn to_pvc(&self) -> (p: PersistentVolumeClaim)
        ensures
            p.metadata.name@ == self.volume_name@,
            p.metadata.labels@ == spec_volume_labels(self.name@, self.component_name@, self.instance_name@),
            owners_view(p.metadata.owner_references) == owners_view(self.owner_ref),
            p.spec matches Some(s) && opt_view(s.storage_class_name) == Some(self.storage_class@) && ({
                let attach: Option<Volume> = if exists|ci: int, vi: int|
                    first_named_volume(self.component.containers@, self.volume_name@, ci, vi) {
                    let (ci, vi) = choose|ci: int, vi: int|
                        first_named_volume(self.component.containers@, self.volume_name@, ci, vi);
                    Some(volumes_of(self.component.containers@[ci])[vi])
                } else {
                    None
                };
                let size = match attach {
                    Some(v) => match v.disk {
                        Some(d) => d.required@,
                        None => "200M"@,
                    },
                    None => "200M"@,
                };
                &&& s.access_modes matches Some(m) && m@.len() == 1 && m@[0]@ == spec_mount_policy(attach)
                &&& s.requests matches Some(r) && r@ == Map::<Seq<char>, Seq<char>>::empty().insert("storage"@, size)
            }),
    {
        let attach_to = self.find_volume();
        proof {
            match attach_to {
                Some(v) => {
                    let (ci, vi) = choose|ci: int, vi: int|
                        first_named_volume(self.component.containers@, self.volume_name@, ci, vi) && *v
                            == volumes_of(self.component.containers@[ci])[vi];
                    let (ci2, vi2) = choose|ci: int, vi: int|
                        first_named_volume(self.component.containers@, self.volume_name@, ci, vi);
                    lemma_first_named_unique(self.component.containers@, self.volume_name@, ci, vi, ci2, vi2);
                },
                None => {},
            }
        }
        let size = match attach_to {
            Some(v) => match &v.disk {
                Some(d) => d.required.clone(),
                None => DEFAULT_VOLUME_SIZE.to_string(),
            },
            None => DEFAULT_VOLUME_SIZE.to_string(),
        };
        let mut reqs: StrMap<String> = StrMap::new();
        reqs.insert("storage".to_string(), size);
        let mut modes: Vec<String> = Vec::new();
        modes.push(self.mount_policy(attach_to));
        PersistentVolumeClaim {
            metadata: ObjectMeta {
                name: self.volume_name.clone(),
                labels: self.labels(),
                owner_references: copy_owner_refs(&self.owner_ref),
            },
            spec: Some(
                PersistentVolumeClaimSpec {
                    access_modes: Some(modes),
                    storage_class_name: Some(self.storage_class.clone()),
                    requests: Some(reqs),
                },
            ),
        }
    }

    /// The status of the claim from what reading it gave: the error's text,
    /// or its phase (`unknown phase` where it has none).
    pub fn status_of(&self, read: Result<Option<String>, String>) -> (r: StrMap<String>)
        ensures
            r@ == Map::<Seq<char>, Seq<char>>::empty().insert(
                "persistentvolumeclaim/"@ + self.volume_name@,
                match read {
                    Err(e) => e@,
                    Ok(Some(phase)) => phase@,
                    Ok(None) => "unknown phase"@,
                },
            ),
    {
        let key = "persistentvolumeclaim/".to_string().concat(self.volume_name.as_str());
        let value = match read {
            Err(e) => e,
            Ok(Some(phase)) => phase,
            Ok(None) => "unknown phase".to_string(),
        };
        let mut resource: StrMap<String> = StrMap::new();
        resource.insert(key, value);
        resource
    }
}

/// At most one volume is the first that a name matches.
pub proof fn lemma_first_named_unique(
    cs: Seq<crate::schematic::component::Container>,
    name: Seq<char>,
    ci: int,
    vi: int,
    ci2: int,
    vi2: int,
)
    requires
        first_named_volume(cs, name, ci, vi),
        first_named_volume(cs, name, ci2, vi2),
    ensures
        ci == ci2 && vi == vi2,
{
    if ci < ci2 {
        assert(!names_volume(name, volumes_of(cs[ci])[vi]));
    } else if ci2 < ci {
        assert(!names_volume(name, volumes_of(cs[ci2])[vi2]));
    } else if vi < vi2 {
        assert(!names_volume(name, volumes_of(cs[ci2])[vi]));
    } else if vi2 < vi {
        assert(!names_volume(name, volumes_of(cs[ci])[vi2]));
    }
}

} // verus!
