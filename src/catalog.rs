use crate::modified::{modified_ago, rfc3339_error};
use crate::settings::ModelSettings;
use crate::short_name::{make_short_name, short_name_of};
use vstd::prelude::*;

verus! {

/// How `bytesize` writes a number of bytes for people to read (`1.5 GB`).
pub uninterp spec fn byte_size_text(bytes: u64) -> Seq<char>;

/// Relies on `bytesize::to_string` with decimal units, the text that
/// `ByteSize`'s `Display` writes; it depends on the number alone.
#[verifier::external_body]
fn format_byte_size(bytes: u64) -> (r: String)
    ensures
        r@ == byte_size_text(bytes),
{
    bytesize::to_string(bytes, false)
}

/// One model that the server offers, as the catalog lists it.
pub struct CatalogEntry {
    /// Canonical name, such as `gemma:latest`.
    pub name: String,
    /// Modification timestamp as the server reports it.
    pub modified_at: String,
    /// The modification time relative to now, for display.
    pub modified_ago: String,
    /// Size in bytes.
    pub size: u64,
}

impl CatalogEntry {
    /// The entry for a model the server lists. `relative` is the time since
    /// `modified_at` in words; when `modified_at` does not parse, the parse
    /// error's text takes its place.
    pub fn new(name: String, modified_at: String, size: u64, relative: String) -> (r: CatalogEntry)
        ensures
            r.name == name,
            r.modified_at == modified_at,
            r.size == size,
            rfc3339_error(modified_at@) is None ==> r.modified_ago == relative,
            rfc3339_error(modified_at@) matches Some(e) ==> r.modified_ago@ == e,
    {
        let modified_ago = modified_ago(modified_at.as_str(), relative);
        CatalogEntry { name, modified_at, modified_ago, size }
    }

    /// The entry's size for display.
    pub fn size_text(&self) -> (r: String)
        ensures
            r@ == byte_size_text(self.size),
    {
        format_byte_size(self.size)
    }
}

/// The model a session uses. An empty name stands for "no selection".
pub struct SelectedModel {
    pub name: String,
    pub short_name: String,
    pub modified_ago: String,
    pub modified_at: String,
    pub size: u64,
}

impl SelectedModel {
    /// This selection was made from catalog entry `e`.
    pub open spec fn describes(&self, e: &CatalogEntry) -> bool {
        &&& self.name@ == e.name@
        &&& self.short_name@ == short_name_of(e.name@)
        &&& self.modified_ago@ == e.modified_ago@
        &&& self.modified_at@ == e.modified_at@
        &&& self.size == e.size
    }

    /// No model is selected.
    pub open spec fn is_none(&self) -> bool {
        &&& self.name@.len() == 0
        &&& self.short_name@.len() == 0
        &&& self.modified_ago@.len() == 0
        &&& self.modified_at@.len() == 0
        &&& self.size == 0
    }

    pub fn none() -> (r: SelectedModel)
        ensures
            r.is_none(),
    {
        SelectedModel {
            name: String::new(),
            short_name: String::new(),
            modified_ago: String::new(),
            modified_at: String::new(),
            size: 0,
        }
    }

    /// The selected model's size for display.
    pub fn size_text(&self) -> (r: String)
        ensures
            r@ == byte_size_text(self.size),
    {
        format_byte_size(self.size)
    }

    /// The selection of catalog entry `e`, with its short name derived.
    pub fn from_entry(e: &CatalogEntry) -> (r: SelectedModel)
        ensures
            r.describes(e),
            r.short_name@.len() >= 1,
    {
        SelectedModel {
            name: e.name.clone(),
            short_name: make_short_name(e.name.as_str()),
            modified_ago: e.modified_ago.clone(),
            modified_at: e.modified_at.clone(),
            size: e.size,
        }
    }
}

impl Default for SelectedModel {
    fn default() -> (r: SelectedModel)
        ensures
            r.is_none(),
    {
        SelectedModel::none()
    }
}

/// The descriptive text fields of a model.
pub enum InfoField {
    License,
    Modelfile,
    Parameters,
    Template,
}

/// Descriptive metadata of one model. A field the model lacks is empty.
pub struct ModelInfo {
    pub license: String,
    pub modelfile: String,
    pub parameters: String,
    pub template: String,
}

impl Clone for ModelInfo {
    fn clone(&self) -> (r: ModelInfo)
        ensures
            r == *self,
    {
        ModelInfo {
            license: self.license.clone(),
            modelfile: self.modelfile.clone(),
            parameters: self.parameters.clone(),
            template: self.template.clone(),
        }
    }
}

/// The one-element list of `(f, text)` when `text` is non-empty, else nothing.
pub open spec fn section(f: InfoField, text: Seq<char>) -> Seq<(InfoField, Seq<char>)> {
    if text.len() == 0 {
        Seq::empty()
    } else {
        seq![(f, text)]
    }
}

impl ModelInfo {
    /// The non-empty fields, in the order license, modelfile, parameters, template.
    pub open spec fn sections_spec(&self) -> Seq<(InfoField, Seq<char>)> {
        section(InfoField::License, self.license@) + section(InfoField::Modelfile, self.modelfile@)
            + section(InfoField::Parameters, self.parameters@) + section(
            InfoField::Template,
            self.template@,
        )
    }

    /// The fields to display, each as its own block; empty fields are left out.
    pub fn sections(&self) -> (r: Vec<(InfoField, String)>)
        ensures
            r@.map_values(|p: (InfoField, String)| (p.0, p.1@)) =~= self.sections_spec(),
    {
        let mut r: Vec<(InfoField, String)> = Vec::new();
        if !self.license.as_str().is_empty() {
            r.push((InfoField::License, self.license.clone()));
        }
        let ghost a = r@;
        if !self.modelfile.as_str().is_empty() {
            r.push((InfoField::Modelfile, self.modelfile.clone()));
        }
        let ghost b = r@;
        if !self.parameters.as_str().is_empty() {
            r.push((InfoField::Parameters, self.parameters.clone()));
        }
        let ghost c = r@;
        if !self.template.as_str().is_empty() {
            r.push((InfoField::Template, self.template.clone()));
        }
        proof {
            let f = |p: (InfoField, String)| (p.0, p.1@);
            assert(a.map_values(f) =~= section(InfoField::License, self.license@));
            assert(b.map_values(f) =~= a.map_values(f) + section(InfoField::Modelfile, self.modelfile@));
            assert(c.map_values(f) =~= b.map_values(f) + section(InfoField::Parameters, self.parameters@));
            assert(r@.map_values(f) =~= c.map_values(f) + section(InfoField::Template, self.template@));
        }
        r
    }
}

/// What the picker asks the fetch collaborator for.
pub enum RequestInfoType<'a> {
    /// The catalog of available models.
    Models,
    /// The metadata of the named model.
    ModelInfo(&'a str),
}

/// `i` is the first position of a largest size in `models`.
pub open spec fn is_first_max(models: Seq<CatalogEntry>, i: int) -> bool {
    &&& 0 <= i < models.len()
    &&& forall|j: int| 0 <= j < models.len() ==> #[trigger] models[j].size <= models[i].size
    &&& forall|j: int| 0 <= j < i ==> #[trigger] models[j].size < models[i].size
}

/// The position of the largest model, the first one among equals; `None` for
/// an empty catalog.
pub fn best_model_index(models: &[CatalogEntry]) -> (r: Option<usize>)
    ensures
        r is None <==> models@.len() == 0,
        r matches Some(i) ==> is_first_max(models@, i as int),
{
    if models.len() == 0 {
        return None;
    }
    let mut best: usize = 0;
    let mut k: usize = 1;
    while k < models.len()
        invariant
            1 <= k <= models@.len(),
            best < k,
            forall|j: int| 0 <= j < k ==> #[trigger] models@[j].size <= models@[best as int].size,
            forall|j: int| 0 <= j < best ==> #[trigger] models@[j].size < models@[best as int].size,
        decreases models@.len() - k,
    {
        if models[k].size > models[best].size {
            best = k;
        }
        k = k + 1;
    }
    Some(best)
}

/// The model selector of a session with its metadata cache and settings.
pub struct ModelPicker {
    pub selected: SelectedModel,
    /// Metadata of the selected model, once it has arrived.
    pub info: Option<ModelInfo>,
    pub settings: ModelSettings,
}

impl ModelPicker {
    pub fn new() -> (r: ModelPicker)
        ensures
            r.selected.is_none(),
            r.info is None,
            r.settings.all_unset(),
    {
        ModelPicker { selected: SelectedModel::none(), info: None, settings: ModelSettings::new() }
    }

    pub open spec fn has_selection_spec(&self) -> bool {
        self.selected.name@.len() > 0
    }

    pub fn has_selection(&self) -> (r: bool)
        ensures
            r == self.has_selection_spec(),
    {
        !self.selected.name.as_str().is_empty()
    }

    /// The user picks `entry` from the catalog. The cached metadata is dropped
    /// every time, also when the same model is picked again.
    pub fn select_model(&mut self, entry: &CatalogEntry)
        ensures
            final(self).selected.describes(entry),
            final(self).info is None,
            final(self).settings == old(self).settings,
    {
        self.selected = SelectedModel::from_entry(entry);
        self.info = None;
    }

    /// Metadata for model `name` has arrived. It is cached only if `name` is
    /// the selected model; a response for any other model is discarded.
    pub fn on_new_model_info(&mut self, name: &str, info: &ModelInfo)
        ensures
            final(self).selected == old(self).selected,
            final(self).settings == old(self).settings,
            old(self).selected.name@ == name@ ==> final(self).info == Some(*info),
            old(self).selected.name@ != name@ ==> final(self).info == old(self).info,
    {
        let owned = name.to_owned();
        if self.selected.name == owned {
            self.info = Some(info.clone());
        }
    }

    /// Selects the largest model of the catalog, the first among equals, and
    /// drops the cached metadata; an empty catalog changes nothing.
    pub fn select_best_model(&mut self, models: &[CatalogEntry])
        ensures
            models@.len() == 0 ==> *final(self) == *old(self),
            models@.len() > 0 ==> exists|i: int|
                is_first_max(models@, i) && final(self).selected.describes(&models@[i]),
            models@.len() > 0 ==> final(self).info is None,
            final(self).settings == old(self).settings,
    {
        match best_model_index(models) {
            Some(i) => self.select_model(&models[i]),
            None => {},
        }
    }

    /// What one render of the picker asks for: while a model is selected and
    /// its metadata is missing, every render requests that metadata again.
    pub fn pending_request(&self) -> (r: Option<RequestInfoType<'_>>)
        ensures
            self.has_selection_spec() && self.info is None <==> r is Some,
            r matches Some(req) ==> (req matches RequestInfoType::ModelInfo(n) && n@
                == self.selected.name@),
    {
        if self.has_selection() && self.info.is_none() {
            Some(RequestInfoType::ModelInfo(self.selected.name.as_str()))
        } else {
            None
        }
    }
}

impl Default for ModelPicker {
    fn default() -> (r: ModelPicker)
        ensures
            r.selected.is_none(),
            r.info is None,
            r.settings.all_unset(),
    {
        ModelPicker::new()
    }
}

} // verus!
