//! Workload types that are custom resources of any other kind, named by
//! their group, version and kind.
use vstd::prelude::*;
use crate::instigator::OwnerReference;
use crate::json::{Json, JsonValue};
use crate::schematic::{GroupVersionKind, spec_parse_gvk};
use crate::schematic::component::WorkloadSetting;
use crate::workload_type::{UnknownWorkload, WorkloadMetadata, first_setting, has_spec_setting, has_setting, lemma_first_setting};
use crate::strmap::opt_view;

verus! {

pub struct Others {
    pub meta: WorkloadMetadata,
    pub gvk: GroupVersionKind,
}

/// What serde writes for an owner reference: its members in the order of
/// its fields, the flags only where they are given.
pub open spec fn owner_json(o: OwnerReference) -> Json {
    let head = seq![("apiVersion"@, Json::String(o.api_version@))];
    let with_block = match o.block_owner_deletion {
        Some(b) => head.push(("blockOwnerDeletion"@, Json::Bool(b))),
        None => head,
    };
    let with_flags = match o.controller {
        Some(c) => with_block.push(("controller"@, Json::Bool(c))),
        None => with_block,
    };
    Json::Object(
        with_flags + seq![("kind"@, Json::String(o.kind@)), ("name"@, Json::String(o.name@)), ("uid"@, Json::String(o.uid@))],
    )
}

/// The owners of a workload as JSON: `null` where there are none.
pub open spec fn owners_json(o: Option<Vec<OwnerReference>>) -> Json {
    match o {
        Some(v) => Json::Array(v@.map_values(|x: OwnerReference| owner_json(x))),
        None => Json::Null,
    }
}

/// The value of a workload setting as JSON: `null` where it has none.
pub open spec fn setting_json(s: WorkloadSetting) -> Json {
    match s.default {
        Some(d) => d@,
        None => Json::Null,
    }
}

/// The object of a custom workload: its type, its name and owners, and as its
/// spec the value of the `spec` workload setting.
pub open spec fn spec_object(o: Others, spec_value: Json) -> Json {
    Json::Object(
        seq![
            ("apiVersion"@, Json::String(o.gvk.group@ + "/"@ + o.gvk.version@)),
            ("kind"@, Json::String(o.gvk.kind@)),
            (
                "metadata"@,
                Json::Object(
                    seq![("name"@, Json::String(o.meta.instance_name@)), ("ownerReferences"@, owners_json(o.meta.owner_ref))],
                ),
            ),
            ("spec"@, spec_value),
        ],
    )
}

fn owner_to_json(o: &OwnerReference) -> (r: JsonValue)
    ensures
        r@ == owner_json(*o),
{
    let mut entries: Vec<(String, JsonValue)> = Vec::new();
    entries.push(("apiVersion".to_string(), JsonValue::String(o.api_version.clone())));
    match o.block_owner_deletion {
        Some(b) => entries.push(("blockOwnerDeletion".to_string(), JsonValue::Bool(b))),
        None => {},
    }
    match o.controller {
        Some(c) => entries.push(("controller".to_string(), JsonValue::Bool(c))),
        None => {},
    }
    entries.push(("kind".to_string(), JsonValue::String(o.kind.clone())));
    entries.push(("name".to_string(), JsonValue::String(o.name.clone())));
    entries.push(("uid".to_string(), JsonValue::String(o.uid.clone())));
    let r = JsonValue::object(entries);
    proof {
        let head = seq![("apiVersion"@, Json::String(o.api_version@))];
        let with_block = match o.block_owner_deletion {
            Some(b) => head.push(("blockOwnerDeletion"@, Json::Bool(b))),
            None => head,
        };
        let with_flags = match o.controller {
            Some(c) => with_block.push(("controller"@, Json::Bool(c))),
            None => with_block,
        };
        assert(entries@.map_values(|e: (String, JsonValue)| (e.0@, e.1@)) =~= with_flags + seq![
            ("kind"@, Json::String(o.kind@)),
            ("name"@, Json::String(o.name@)),
            ("uid"@, Json::String(o.uid@)),
        ]);
    }
    r
}

fn owners_to_json(o: &Option<Vec<OwnerReference>>) -> (r: JsonValue)
    ensures
        r@ == owners_json(*o),
{
    match o {
        Some(v) => {
            let mut items: Vec<JsonValue> = Vec::new();
            let n = v.len();
            let mut i: usize = 0;
            while i < n
                invariant
                    n == v@.len(),
                    i <= n,
                    items@.len() == i,
                    forall|j: int| 0 <= j < i ==> (#[trigger] items@[j])@ == owner_json(v@[j]),
                decreases n - i,
            {
                items.push(owner_to_json(&v[i]));
                i = i + 1;
            }
            let r = JsonValue::array(items);
            assert(items@.map_values(|e: JsonValue| e@) =~= v@.map_values(|x: OwnerReference| owner_json(x)));
            r
        },
        None => JsonValue::Null,
    }
}

/// The lower-case form of a text, as `str::to_lowercase` gives it.
pub uninterp spec fn lowercase(s: Seq<char>) -> Seq<char>;

/// Calls `str::to_lowercase`; its result is named `lowercase` of the text.
#[verifier::external_body]
fn to_lowercase(s: &str) -> (r: String)
    ensures
        r@ == lowercase(s@),
{
    s.to_lowercase()
}

impl Others {
    /// A custom workload: the workload type must be `GROUP/VERSION.KIND`, and
    /// the component must have a `spec` workload setting.
    pub fn new(meta: WorkloadMetadata, type_: &str) -> (r: Result<Others, UnknownWorkload>)
        ensures
            match spec_parse_gvk(type_@) {
                Err(e) => r == Err::<Others, UnknownWorkload>(UnknownWorkload::BadType(e)),
                Ok((g, v, k)) => if has_setting(meta.definition, "spec"@) {
                    r matches Ok(o) && o.meta == meta && o.gvk.group@ == g && o.gvk.version@ == v && o.gvk.kind@ == k
                } else {
                    r == Err::<Others, UnknownWorkload>(UnknownWorkload::MissingSpec)
                },
            },
    {
        let gvk = match GroupVersionKind::parse(type_) {
            Ok(g) => g,
            Err(e) => return Err(UnknownWorkload::BadType(e)),
        };
        if !has_spec_setting(&meta.definition) {
            return Err(UnknownWorkload::MissingSpec);
        }
        Ok(Others { meta, gvk })
    }

    fn spec_setting_index(&self) -> (i: usize)
        requires
            has_setting(self.meta.definition, "spec"@),
        ensures
            first_setting(self.meta.definition.workload_settings@, "spec"@) == Some(i as int),
            i < self.meta.definition.workload_settings@.len(),
    {
        let settings = &self.meta.definition.workload_settings;
        let n = settings.len();
        let mut i: usize = 0;
        while i < n
            invariant
                n == settings@.len(),
                settings@ == self.meta.definition.workload_settings@,
                i <= n,
                forall|j: int| 0 <= j < i ==> settings@[j].name@ != "spec"@,
                first_setting(settings@, "spec"@) is Some,
            decreases n - i,
        {
            if crate::strings::str_eq(settings[i].name.as_str(), "spec") {
                proof {
                    lemma_first_setting(settings@, "spec"@, i as int);
                }
                return i;
            }
            i = i + 1;
        }
        proof {
            lemma_first_setting(settings@, "spec"@, n as int);
        }
        0
    }

    /// The object to create: the custom resource with the `spec` setting's
    /// value as its spec (`null` where the setting has none).
    pub fn get_object(&self) -> (r: JsonValue)
        requires
            has_setting(self.meta.definition, "spec"@),
        ensures
            match first_setting(self.meta.definition.workload_settings@, "spec"@) {
                Some(i) => r@ == spec_object(*self, setting_json(self.meta.definition.workload_settings@[i])),
                None => false,
            },
    {
        let i = self.spec_setting_index();
        let spec_value = match &self.meta.definition.workload_settings[i].default {
            Some(d) => d.clone(),
            None => JsonValue::Null,
        };
        let api_version = self.gvk.group.clone().concat("/").concat(self.gvk.version.as_str());
        let mut metadata: Vec<(String, JsonValue)> = Vec::new();
        metadata.push(("name".to_string(), JsonValue::String(self.meta.instance_name.clone())));
        metadata.push(("ownerReferences".to_string(), owners_to_json(&self.meta.owner_ref)));
        proof {
            assert(metadata@.map_values(|e: (String, JsonValue)| (e.0@, e.1@)) =~= seq![
                ("name"@, Json::String(self.meta.instance_name@)),
                ("ownerReferences"@, owners_json(self.meta.owner_ref)),
            ]);
        }
        let metadata = JsonValue::object(metadata);
        let mut entries: Vec<(String, JsonValue)> = Vec::new();
        entries.push(("apiVersion".to_string(), JsonValue::String(api_version)));
        entries.push(("kind".to_string(), JsonValue::String(self.gvk.kind.clone())));
        entries.push(("metadata".to_string(), metadata));
        entries.push(("spec".to_string(), spec_value));
        proof {
            assert(entries@.map_values(|e: (String, JsonValue)| (e.0@, e.1@)) =~= seq![
                ("apiVersion"@, Json::String(self.gvk.group@ + "/"@ + self.gvk.version@)),
                ("kind"@, Json::String(self.gvk.kind@)),
                ("metadata"@, metadata@),
                ("spec"@, setting_json(self.meta.definition.workload_settings@[i as int])),
            ]);
        }
        JsonValue::object(entries)
    }

    /// The plural resource name of the custom kind, as the cluster serves it.
    pub fn resource_name(&self) -> (r: String)
        ensures
            r@ == spec_form_plural(lowercase(self.gvk.kind@)),
    {
        let lower = to_lowercase(self.gvk.kind.as_str());
        form_plural(lower.as_str())
    }
}

/// Forms the plural of a kind's name, as the resource of a custom kind is
/// named: a final `y` becomes `ies`; `s`, `c`, `ch` and `sh` take `es`; other
/// words take `s`.
pub open spec fn spec_form_plural(w: Seq<char>) -> Seq<char> {
    if w.len() == 0 {
        w
    } else if w.last() == 'y' {
        w.drop_last() + "ies"@
    } else if w.last() == 's' || w.last() == 'c' || (w.len() >= 2 && w[w.len() - 2] == 'c' && w.last() == 'h')
        || (w.len() >= 2 && w[w.len() - 2] == 's' && w.last() == 'h') {
        w + "es"@
    } else {
        w + "s"@
    }
}

/// Forms the plural of a kind's name.
pub fn form_plural(word: &str) -> (r: String)
    ensures
        r@ == spec_form_plural(word@),
{
    let n = word.unicode_len();
    if n == 0 {
        return word.to_string();
    }
    let last = word.get_char(n - 1);
    if last == 'y' {
        return word.substring_char(0, n - 1).to_string().concat("ies");
    }
    let before_h = n >= 2 && last == 'h' && (word.get_char(n - 2) == 'c' || word.get_char(n - 2) == 's');
    if last == 's' || last == 'c' || before_h {
        return word.to_string().concat("es");
    }
    word.to_string().concat("s")
}

/// The plural of a kind's name is the name with an ending added: longer than
/// the name, and ending in `s`.
pub proof fn lemma_plural_ends_in_s(w: Seq<char>)
    requires
        w.len() > 0,
    ensures
        spec_form_plural(w).len() > w.len(),
        spec_form_plural(w).last() == 's',
{
    reveal_strlit("ies");
    reveal_strlit("es");
    reveal_strlit("s");
}

} // verus!
