//! Format registries: which kinds are enabled, which custom formats exist, and
//! which kind applies to an explicit request, a candidate list or an extension.
use vstd::prelude::*;
use crate::error::{FormatError, FormatErrorModel};
use crate::kind::{
    FormatKind, KindModel, ascii_lowercase, default_format_order, lower, spec_available,
    spec_extensions,
};
use crate::text::text_eq;

verus! {

/// Descriptor of a user-supplied codec: its unique name, its extensions, and
/// which handlers (decode, encode, streaming decode) it offers.
#[derive(Debug, Clone)]
pub struct CustomFormat {
    pub name: String,
    pub extensions: Vec<String>,
    pub decodes: bool,
    pub encodes: bool,
    pub streams: bool,
}

/// Model of a [`CustomFormat`].
pub struct CustomModel {
    pub name: Seq<char>,
    pub extensions: Seq<Seq<char>>,
    pub decodes: bool,
    pub encodes: bool,
    pub streams: bool,
}

/// Models of a sequence of texts.
pub open spec fn texts_view(v: Seq<String>) -> Seq<Seq<char>> {
    v.map_values(|s: String| s@)
}

impl View for CustomFormat {
    type V = CustomModel;

    open spec fn view(&self) -> CustomModel {
        CustomModel {
            name: self.name@,
            extensions: texts_view(self.extensions@),
            decodes: self.decodes,
            encodes: self.encodes,
            streams: self.streams,
        }
    }
}

/// Whether one of `exts` equals `ext`, ignoring ASCII case.
pub open spec fn claims_extension(exts: Seq<Seq<char>>, ext: Seq<char>) -> bool {
    exists|i: int| 0 <= i < exts.len() && lower(#[trigger] exts[i]) == lower(ext)
}

/// Whether one of `exts` equals the lower-case `ext_l`, ignoring ASCII case.
fn any_extension_is(exts: &Vec<String>, ext_l: &str) -> (r: bool)
    requires
        ext_l@ == lower(ext_l@),
    ensures
        r == claims_extension(texts_view(exts@), ext_l@),
{
    let mut i: usize = 0;
    while i < exts.len()
        invariant
            ext_l@ == lower(ext_l@),
            forall|j: int| 0 <= j < i ==> lower(#[trigger] texts_view(exts@)[j]) != lower(ext_l@),
        decreases exts.len() - i,
    {
        let l = ascii_lowercase(exts[i].as_str());
        if text_eq(l.as_str(), ext_l) {
            assert(lower(texts_view(exts@)[i as int]) == lower(ext_l@));
            return true;
        }
        i = i + 1;
    }
    false
}

impl CustomFormat {
    /// A custom format with the given name and extensions and no handlers yet.
    pub fn new(name: &str, extensions: &[&str]) -> (r: CustomFormat)
        ensures
            r@.name == name@,
            r@.extensions == extensions@.map_values(|e: &str| e@),
            !r@.decodes && !r@.encodes && !r@.streams,
    {
        let mut exts: Vec<String> = Vec::new();
        let mut i: usize = 0;
        while i < extensions.len()
            invariant
                i <= extensions@.len(),
                exts@.len() == i,
                forall|j: int| 0 <= j < i ==> (#[trigger] exts@[j])@ == extensions@[j]@,
            decreases extensions.len() - i,
        {
            exts.push(String::from_str(extensions[i]));
            i = i + 1;
        }
        assert(texts_view(exts@) =~= extensions@.map_values(|e: &str| e@));
        CustomFormat { name: String::from_str(name), extensions: exts, decodes: false, encodes: false, streams: false }
    }

    /// The same format, offering a decode handler.
    pub fn with_deserialize(self) -> (r: CustomFormat)
        ensures
            r@ == (CustomModel { decodes: true, ..self@ }),
    {
        CustomFormat { decodes: true, ..self }
    }

    /// The same format, offering an encode handler.
    pub fn with_serialize(self) -> (r: CustomFormat)
        ensures
            r@ == (CustomModel { encodes: true, ..self@ }),
    {
        CustomFormat { encodes: true, ..self }
    }

    /// The same format, offering a streaming decode handler.
    pub fn with_stream_deserialize(self) -> (r: CustomFormat)
        ensures
            r@ == (CustomModel { streams: true, ..self@ }),
    {
        CustomFormat { streams: true, ..self }
    }

    /// Whether this format claims the extension, ignoring ASCII case.
    pub fn matches_extension(&self, ext: &str) -> (r: bool)
        ensures
            r == claims_extension(self@.extensions, ext@),
    {
        let l = ascii_lowercase(ext);
        proof {
            lemma_lower_idempotent(ext@);
        }
        any_extension_is(&self.extensions, l.as_str())
    }

    /// The kind that names this format.
    pub fn kind(&self) -> (r: FormatKind)
        ensures
            r@ == KindModel::Custom(self@.name),
    {
        FormatKind::Custom(self.name.clone())
    }
}

/// Lower-casing twice is lower-casing once.
pub proof fn lemma_lower_idempotent(s: Seq<char>)
    ensures
        lower(lower(s)) == lower(s),
{
    assert(lower(lower(s)) =~= lower(s));
}

/// The first custom format, from index `i` on, with the given name.
pub open spec fn first_custom_named(cs: Seq<CustomModel>, name: Seq<char>, i: int) -> Option<
    CustomModel,
>
    decreases cs.len() - i,
{
    if i < 0 || i >= cs.len() {
        None
    } else if cs[i].name == name {
        Some(cs[i])
    } else {
        first_custom_named(cs, name, i + 1)
    }
}

/// A custom format found by name carries that name.
pub proof fn lemma_custom_named(cs: Seq<CustomModel>, name: Seq<char>, i: int)
    ensures
        first_custom_named(cs, name, i) matches Some(c) ==> c.name == name,
    decreases cs.len() - i,
{
    if 0 <= i < cs.len() && cs[i].name != name {
        lemma_custom_named(cs, name, i + 1);
    }
}

/// Index of the first custom format, from index `i` on, with the given name.
pub open spec fn custom_index(cs: Seq<CustomModel>, name: Seq<char>, i: int) -> Option<int>
    decreases cs.len() - i,
{
    if i < 0 || i >= cs.len() {
        None
    } else if cs[i].name == name {
        Some(i)
    } else {
        custom_index(cs, name, i + 1)
    }
}

/// The custom formats after registering `c`: it replaces the first format of
/// the same name, or is added at the end when there is none.
pub open spec fn with_custom(cs: Seq<CustomModel>, c: CustomModel) -> Seq<CustomModel> {
    match custom_index(cs, c.name, 0) {
        Some(i) => cs.update(i, c),
        None => cs.push(c),
    }
}

proof fn lemma_custom_index_bounds(cs: Seq<CustomModel>, name: Seq<char>, j: int)
    requires
        0 <= j,
    ensures
        custom_index(cs, name, j) matches Some(i) ==> j <= i < cs.len(),
    decreases cs.len() - j,
{
    if j < cs.len() && cs[j].name != name {
        lemma_custom_index_bounds(cs, name, j + 1);
    }
}

proof fn lemma_replaced_is_found(cs: Seq<CustomModel>, c: CustomModel, j: int)
    requires
        0 <= j,
        custom_index(cs, c.name, j) is Some,
    ensures
        first_custom_named(cs.update(custom_index(cs, c.name, j)->Some_0, c), c.name, j) == Some(c),
    decreases cs.len() - j,
{
    let i = custom_index(cs, c.name, j)->Some_0;
    if cs[j].name != c.name {
        lemma_custom_index_bounds(cs, c.name, j + 1);
        lemma_replaced_is_found(cs, c, j + 1);
        assert(cs.update(i, c)[j] == cs[j]);
    }
}

proof fn lemma_pushed_is_found(cs: Seq<CustomModel>, c: CustomModel, j: int)
    requires
        0 <= j <= cs.len(),
        custom_index(cs, c.name, j) is None,
    ensures
        first_custom_named(cs.push(c), c.name, j) == Some(c),
    decreases cs.len() - j,
{
    if j < cs.len() {
        lemma_pushed_is_found(cs, c, j + 1);
        assert(cs.push(c)[j] == cs[j]);
    }
}

/// Registering a custom format makes it the one found under its name:
/// re-registering a name replaces the capabilities registered before.
pub proof fn law_registration_replaces(cs: Seq<CustomModel>, c: CustomModel)
    ensures
        first_custom_named(with_custom(cs, c), c.name, 0) == Some(c),
{
    if custom_index(cs, c.name, 0) is Some {
        lemma_replaced_is_found(cs, c, 0);
    } else {
        lemma_pushed_is_found(cs, c, 0);
    }
}

/// Model of a registry: enabled kinds in registration order, and custom formats.
pub struct RegistryModel {
    pub formats: Seq<KindModel>,
    pub customs: Seq<CustomModel>,
}

/// Whether a kind is enabled and its codec available, so that resolution may pick it.
pub open spec fn usable(formats: Seq<KindModel>, k: KindModel) -> bool {
    formats.contains(k) && spec_available(k)
}

/// The first candidate, from index `i` on, that resolution may pick.
pub open spec fn first_usable(formats: Seq<KindModel>, cands: Seq<KindModel>, i: int) -> Option<
    KindModel,
>
    decreases cands.len() - i,
{
    if i < 0 || i >= cands.len() {
        None
    } else if usable(formats, cands[i]) {
        Some(cands[i])
    } else {
        first_usable(formats, cands, i + 1)
    }
}

/// Resolution: an explicit kind is taken iff usable and is otherwise an error of
/// its own; without one, the first usable candidate is taken.
pub open spec fn spec_resolve(
    formats: Seq<KindModel>,
    explicit: Option<KindModel>,
    cands: Seq<KindModel>,
) -> Result<KindModel, FormatErrorModel> {
    match explicit {
        Some(k) => if usable(formats, k) {
            Ok(k)
        } else {
            Err(FormatErrorModel::UnknownFormat(k))
        },
        None => match first_usable(formats, cands, 0) {
            Some(k) => Ok(k),
            None => Err(FormatErrorModel::NoFormatMatched),
        },
    }
}

/// Whether a built-in kind lists the extension, ignoring ASCII case.
pub open spec fn kind_claims(k: KindModel, ext: Seq<char>) -> bool {
    claims_extension(spec_extensions(k), ext)
}

/// The first kind, from index `i` on, that lists the extension.
pub open spec fn first_kind_claiming(ks: Seq<KindModel>, ext: Seq<char>, i: int) -> Option<
    KindModel,
>
    decreases ks.len() - i,
{
    if i < 0 || i >= ks.len() {
        None
    } else if kind_claims(ks[i], ext) {
        Some(ks[i])
    } else {
        first_kind_claiming(ks, ext, i + 1)
    }
}

/// The first custom format, from index `i` on, that claims the extension.
pub open spec fn first_custom_claiming(cs: Seq<CustomModel>, ext: Seq<char>, i: int) -> Option<
    KindModel,
>
    decreases cs.len() - i,
{
    if i < 0 || i >= cs.len() {
        None
    } else if claims_extension(cs[i].extensions, ext) {
        Some(KindModel::Custom(cs[i].name))
    } else {
        first_custom_claiming(cs, ext, i + 1)
    }
}

/// Extension lookup: enabled kinds first, in registration order, then custom formats.
pub open spec fn spec_kind_for_extension(r: RegistryModel, ext: Seq<char>) -> Option<KindModel> {
    match first_kind_claiming(r.formats, ext, 0) {
        Some(k) => Some(k),
        None => first_custom_claiming(r.customs, ext, 0),
    }
}

/// Models of custom formats.
pub open spec fn customs_view(v: Seq<CustomFormat>) -> Seq<CustomModel> {
    v.map_values(|c: CustomFormat| c@)
}

/// Model of a resolution result.
pub open spec fn resolved_view(r: Result<FormatKind, FormatError>) -> Result<KindModel, FormatErrorModel> {
    match r {
        Ok(k) => Ok(k@),
        Err(e) => Err(e@),
    }
}

/// Index of the first kind equal to `k`.
fn position_of(ks: &Vec<FormatKind>, k: &FormatKind) -> (r: Option<usize>)
    ensures
        match r {
            Some(i) => i < ks@.len() && ks@[i as int]@ == k@,
            None => !kinds_model(ks@).contains(k@),
        },
{
    let mut i: usize = 0;
    while i < ks.len()
        invariant
            forall|j: int| 0 <= j < i ==> ks@[j]@ != k@,
        decreases ks.len() - i,
    {
        if ks[i].same_as(k) {
            return Some(i);
        }
        i = i + 1;
    }
    proof {
        if kinds_model(ks@).contains(k@) {
            let j = choose|j: int| 0 <= j < kinds_model(ks@).len() && kinds_model(ks@)[j] == k@;
            assert(ks@[j]@ == k@);
        }
    }
    None
}

/// Models of a sequence of kinds.
pub open spec fn kinds_model(v: Seq<FormatKind>) -> Seq<KindModel> {
    v.map_values(|k: FormatKind| k@)
}

/// Whether `k` is enabled among `ks` and available.
fn is_usable(ks: &Vec<FormatKind>, k: &FormatKind) -> (r: bool)
    ensures
        r == usable(kinds_model(ks@), k@),
{
    match position_of(ks, k) {
        Some(i) => {
            assert(kinds_model(ks@)[i as int] == k@);
            k.is_available()
        },
        None => false,
    }
}

/// Resolution over the enabled kinds `ks`.
fn resolve_among(ks: &Vec<FormatKind>, explicit: Option<&FormatKind>, cands: &[FormatKind]) -> (r:
    Result<FormatKind, FormatError>)
    ensures
        resolved_view(r) == spec_resolve(
            kinds_model(ks@),
            match explicit {
                Some(k) => Some(k@),
                None => None,
            },
            cands@.map_values(|k: FormatKind| k@),
        ),
{
    let ghost cm = cands@.map_values(|k: FormatKind| k@);
    match explicit {
        Some(k) => {
            if is_usable(ks, k) {
                Ok(k.duplicate())
            } else {
                Err(FormatError::UnknownFormat(k.duplicate()))
            }
        },
        None => {
            let mut i: usize = 0;
            while i < cands.len()
                invariant
                    explicit is None,
                    i <= cands@.len(),
                    cm == cands@.map_values(|k: FormatKind| k@),
                    first_usable(kinds_model(ks@), cm, 0) == first_usable(kinds_model(ks@), cm, i as int),
                decreases cands.len() - i,
            {
                assert(cm[i as int] == cands@[i as int]@);
                if is_usable(ks, &cands[i]) {
                    assert(first_usable(kinds_model(ks@), cm, i as int) == Some(cm[i as int]));
                    return Ok(cands[i].duplicate());
                }
                i = i + 1;
            }
            Err(FormatError::NoFormatMatched)
        },
    }
}

/// Whether the built-in kind `k` lists the lower-case extension `ext_l`.
fn kind_lists(k: &FormatKind, ext_l: &str) -> (r: bool)
    requires
        ext_l@ == lower(ext_l@),
    ensures
        r == kind_claims(k@, ext_l@),
{
    let exts = k.extensions();
    let ghost ev = exts@.map_values(|e: &str| e@);
    let mut i: usize = 0;
    while i < exts.len()
        invariant
            ev == exts@.map_values(|e: &str| e@),
            ev == spec_extensions(k@),
            ext_l@ == lower(ext_l@),
            forall|j: int| 0 <= j < i ==> lower(#[trigger] ev[j]) != lower(ext_l@),
        decreases exts.len() - i,
    {
        let l = ascii_lowercase(exts[i]);
        if text_eq(l.as_str(), ext_l) {
            assert(lower(ev[i as int]) == lower(ext_l@));
            return true;
        }
        i = i + 1;
    }
    false
}

/// The first kind among `ks` that lists the lower-case extension `ext_l`.
fn scan_kinds(ks: &Vec<FormatKind>, ext_l: &str) -> (r: Option<FormatKind>)
    requires
        ext_l@ == lower(ext_l@),
    ensures
        match r {
            Some(k) => first_kind_claiming(kinds_model(ks@), ext_l@, 0) == Some(k@),
            None => first_kind_claiming(kinds_model(ks@), ext_l@, 0) is None,
        },
{
    let mut i: usize = 0;
    while i < ks.len()
        invariant
            ext_l@ == lower(ext_l@),
            first_kind_claiming(kinds_model(ks@), ext_l@, 0) == first_kind_claiming(
                kinds_model(ks@),
                ext_l@,
                i as int,
            ),
        decreases ks.len() - i,
    {
        if kind_lists(&ks[i], ext_l) {
            return Some(ks[i].duplicate());
        }
        i = i + 1;
    }
    None
}

/// A registry of enabled kinds and custom formats, as used by the synchronous engine.
#[derive(Debug, Clone)]
pub struct FormatRegistry {
    formats: Vec<FormatKind>,
    custom_formats: Vec<CustomFormat>,
}

impl View for FormatRegistry {
    type V = RegistryModel;

    closed spec fn view(&self) -> RegistryModel {
        RegistryModel {
            formats: kinds_model(self.formats@),
            customs: customs_view(self.custom_formats@),
        }
    }
}

/// `s` with `k` added at the end unless already present.
pub open spec fn with_kind(s: Seq<KindModel>, k: KindModel) -> Seq<KindModel> {
    if s.contains(k) {
        s
    } else {
        s.push(k)
    }
}

impl FormatRegistry {
    /// An empty registry.
    pub fn new() -> (r: FormatRegistry)
        ensures
            r@.formats == Seq::<KindModel>::empty(),
            r@.customs == Seq::<CustomModel>::empty(),
    {
        let r = FormatRegistry { formats: Vec::new(), custom_formats: Vec::new() };
        assert(r@.formats =~= Seq::<KindModel>::empty());
        assert(r@.customs =~= Seq::<CustomModel>::empty());
        r
    }

    /// Enables a kind; enabling it again changes nothing.
    pub fn register(&mut self, kind: FormatKind)
        ensures
            final(self)@.formats == with_kind(old(self)@.formats, kind@),
            final(self)@.customs == old(self)@.customs,
    {
        match position_of(&self.formats, &kind) {
            Some(i) => {
                assert(self@.formats[i as int] == kind@);
            },
            None => {
                self.formats.push(kind);
                assert(self@.formats =~= with_kind(old(self)@.formats, kind@));
            },
        }
    }

    /// This registry with the kind enabled.
    pub fn with_format(self, kind: FormatKind) -> (r: FormatRegistry)
        ensures
            r@.formats == with_kind(self@.formats, kind@),
            r@.customs == self@.customs,
    {
        let mut r = self;
        r.register(kind);
        r
    }

    /// Adds a custom format and enables its kind; a format already registered
    /// under the same name is replaced in place.
    pub fn register_custom(&mut self, format: CustomFormat)
        ensures
            final(self)@.formats == with_kind(old(self)@.formats, KindModel::Custom(format@.name)),
            final(self)@.customs == with_custom(old(self)@.customs, format@),
    {
        let kind = format.kind();
        self.register(kind);
        let mut i: usize = 0;
        while i < self.custom_formats.len()
            invariant
                self@.customs == old(self)@.customs,
                self@.formats == with_kind(old(self)@.formats, KindModel::Custom(format@.name)),
                custom_index(self@.customs, format@.name, 0) == custom_index(self@.customs, format@.name, i as int),
            decreases self.custom_formats.len() - i,
        {
            assert(self@.customs[i as int] == self.custom_formats@[i as int]@);
            if text_eq(self.custom_formats[i].name.as_str(), format.name.as_str()) {
                let ghost before = self@.customs;
                self.custom_formats.set(i, format);
                assert(self@.customs =~= before.update(i as int, format@));
                return;
            }
            i = i + 1;
        }
        self.custom_formats.push(format);
        assert(self@.customs =~= old(self)@.customs.push(format@));
    }

    /// This registry with the custom format added.
    pub fn with_custom_format(self, format: CustomFormat) -> (r: FormatRegistry)
        ensures
            r@.formats == with_kind(self@.formats, KindModel::Custom(format@.name)),
            r@.customs == with_custom(self@.customs, format@),
    {
        let mut r = self;
        r.register_custom(format);
        r
    }

    /// Whether the kind is enabled.
    pub fn has_format(&self, kind: &FormatKind) -> (r: bool)
        ensures
            r == self@.formats.contains(kind@),
    {
        match position_of(&self.formats, kind) {
            Some(i) => {
                assert(self@.formats[i as int] == kind@);
                true
            },
            None => false,
        }
    }

    /// The first custom format with the given name.
    pub fn get_custom(&self, name: &str) -> (r: Option<&CustomFormat>)
        ensures
            match r {
                Some(c) => first_custom_named(self@.customs, name@, 0) == Some(c@),
                None => first_custom_named(self@.customs, name@, 0) is None,
            },
    {
        let mut i: usize = 0;
        while i < self.custom_formats.len()
            invariant
                first_custom_named(self@.customs, name@, 0) == first_custom_named(
                    self@.customs,
                    name@,
                    i as int,
                ),
            decreases self.custom_formats.len() - i,
        {
            assert(self@.customs[i as int] == self.custom_formats@[i as int]@);
            if text_eq(self.custom_formats[i].name.as_str(), name) {
                return Some(&self.custom_formats[i]);
            }
            i = i + 1;
        }
        None
    }

    /// The kind for a file extension, ignoring ASCII case: enabled kinds first,
    /// in registration order, then custom formats in registration order.
    pub fn kind_for_extension(&self, ext: &str) -> (r: Option<FormatKind>)
        ensures
            crate::kind::opt_kind(r) == spec_kind_for_extension(self@, ext@),
    {
        let l = ascii_lowercase(ext);
        proof {
            lemma_lower_idempotent(ext@);
            lemma_kinds_lower(self@.formats, ext@, 0);
        }
        match scan_kinds(&self.formats, l.as_str()) {
            Some(k) => Some(k),
            None => {
                let mut i: usize = 0;
                while i < self.custom_formats.len()
                    invariant
                        l@ == lower(ext@),
                        first_kind_claiming(self@.formats, ext@, 0) is None,
                        first_custom_claiming(self@.customs, ext@, 0) == first_custom_claiming(
                            self@.customs,
                            ext@,
                            i as int,
                        ),
                    decreases self.custom_formats.len() - i,
                {
                    let hit = self.custom_formats[i].matches_extension(l.as_str());
                    proof {
                        lemma_lower_idempotent(ext@);
                        let exts = self@.customs[i as int].extensions;
                        assert(self@.customs[i as int] == self.custom_formats@[i as int]@);
                        assert(claims_extension(exts, l@) == claims_extension(exts, ext@)) by {
                            assert(lower(l@) == lower(ext@));
                        }
                    }
                    if hit {
                        assert(first_custom_claiming(self@.customs, ext@, i as int) == Some(
                            KindModel::Custom(self@.customs[i as int].name),
                        ));
                        return Some(self.custom_formats[i].kind());
                    }
                    i = i + 1;
                }
                None
            },
        }
    }

    /// Resolves a kind from an explicit request or, without one, from the candidates.
    pub fn resolve(&self, explicit: Option<&FormatKind>, candidates: &[FormatKind]) -> (r: Result<
        FormatKind,
        FormatError,
    >)
        ensures
            resolved_view(r) == spec_resolve(
                self@.formats,
                match explicit {
                    Some(k) => Some(k@),
                    None => None,
                },
                candidates@.map_values(|k: FormatKind| k@),
            ),
    {
        resolve_among(&self.formats, explicit, candidates)
    }

    /// The enabled kinds in registration order.
    pub fn formats(&self) -> (r: &Vec<FormatKind>)
        ensures
            kinds_model(r@) == self@.formats,
    {
        &self.formats
    }

    /// The custom formats in registration order.
    pub fn custom_formats(&self) -> (r: &Vec<CustomFormat>)
        ensures
            customs_view(r@) == self@.customs,
    {
        &self.custom_formats
    }
}

/// Extension matching over kinds is insensitive to lower-casing the extension first.
proof fn lemma_kinds_lower(ks: Seq<KindModel>, ext: Seq<char>, i: int)
    ensures
        first_kind_claiming(ks, lower(ext), i) == first_kind_claiming(ks, ext, i),
    decreases ks.len() - i,
{
    lemma_lower_idempotent(ext);
    if 0 <= i < ks.len() {
        lemma_kinds_lower(ks, ext, i + 1);
    }
}

proof fn lemma_customs_lower(cs: Seq<CustomModel>, ext: Seq<char>, i: int)
    ensures
        first_custom_claiming(cs, lower(ext), i) == first_custom_claiming(cs, ext, i),
    decreases cs.len() - i,
{
    lemma_lower_idempotent(ext);
    if 0 <= i < cs.len() {
        lemma_customs_lower(cs, ext, i + 1);
    }
}

/// The kinds that a fresh default registry enables: each available built-in, in default order.
pub open spec fn spec_default_formats() -> Seq<KindModel> {
    seq![
        KindModel::Json,
        KindModel::Yaml,
        KindModel::Ini,
        KindModel::Csv,
        KindModel::Xml,
        KindModel::Markdown,
        KindModel::Plaintext,
    ]
}

/// The kinds of `d` whose codec is available, in order.
pub open spec fn available_of(d: Seq<KindModel>) -> Seq<KindModel>
    decreases d.len(),
{
    if d.len() == 0 {
        seq![]
    } else if spec_available(d.last()) {
        available_of(d.drop_last()).push(d.last())
    } else {
        available_of(d.drop_last())
    }
}

/// Enables, in default order, every built-in kind whose codec is available.
fn enable_available_builtins(ks: &mut Vec<FormatKind>)
    requires
        old(ks)@.len() == 0,
    ensures
        kinds_model(final(ks)@) == spec_default_formats(),
{
    let order = default_format_order();
    let ghost d = crate::kind::spec_default_order();
    let mut i: usize = 0;
    assert(kinds_model(ks@) =~= available_of(d.subrange(0, 0)));
    while i < order.len()
        invariant
            crate::kind::kinds_view(order@) == d,
            d == crate::kind::spec_default_order(),
            i <= order@.len(),
            kinds_model(ks@) == available_of(d.subrange(0, i as int)),
        decreases order.len() - i,
    {
        proof {
            assert(d.subrange(0, i + 1).drop_last() == d.subrange(0, i as int));
            assert(d.subrange(0, i + 1).last() == order@[i as int]@);
        }
        if order[i].is_available() {
            ks.push(order[i].duplicate());
        }
        assert(kinds_model(ks@) =~= available_of(d.subrange(0, i + 1)));
        i = i + 1;
    }
    proof {
        assert(d.subrange(0, 8) == d);
        reveal_with_fuel(available_of, 9);
        assert(available_of(d) =~= spec_default_formats());
    }
}

/// A fresh registry enabling every available built-in kind, in default order.
pub fn default_registry() -> (r: FormatRegistry)
    ensures
        r@.formats == spec_default_formats(),
        r@.customs == Seq::<CustomModel>::empty(),
{
    let mut formats: Vec<FormatKind> = Vec::new();
    enable_available_builtins(&mut formats);
    let r = FormatRegistry { formats, custom_formats: Vec::new() };
    assert(r@.customs =~= Seq::<CustomModel>::empty());
    r
}

/// A registry of enabled built-in kinds, as used by the asynchronous engine.
#[derive(Debug, Clone)]
pub struct AsyncFormatRegistry {
    formats: Vec<FormatKind>,
}

impl View for AsyncFormatRegistry {
    type V = Seq<KindModel>;

    closed spec fn view(&self) -> Seq<KindModel> {
        kinds_model(self.formats@)
    }
}

impl AsyncFormatRegistry {
    /// An empty registry.
    pub fn new() -> (r: AsyncFormatRegistry)
        ensures
            r@ == Seq::<KindModel>::empty(),
    {
        let r = AsyncFormatRegistry { formats: Vec::new() };
        assert(r@ =~= Seq::<KindModel>::empty());
        r
    }

    /// Enables a kind; enabling it again changes nothing.
    pub fn register(&mut self, kind: FormatKind)
        ensures
            final(self)@ == with_kind(old(self)@, kind@),
    {
        match position_of(&self.formats, &kind) {
            Some(i) => {
                assert(self@[i as int] == kind@);
            },
            None => {
                self.formats.push(kind);
                assert(self@ =~= with_kind(old(self)@, kind@));
            },
        }
    }

    /// This registry with the kind enabled.
    pub fn with_format(self, kind: FormatKind) -> (r: AsyncFormatRegistry)
        ensures
            r@ == with_kind(self@, kind@),
    {
        let mut r = self;
        r.register(kind);
        r
    }

    /// Whether the kind is enabled.
    pub fn has_format(&self, kind: &FormatKind) -> (r: bool)
        ensures
            r == self@.contains(kind@),
    {
        match position_of(&self.formats, kind) {
            Some(i) => {
                assert(self@[i as int] == kind@);
                true
            },
            None => false,
        }
    }

    /// The first enabled kind, in registration order, that lists the extension.
    pub fn kind_for_extension(&self, ext: &str) -> (r: Option<FormatKind>)
        ensures
            crate::kind::opt_kind(r) == first_kind_claiming(self@, ext@, 0),
    {
        let l = ascii_lowercase(ext);
        proof {
            lemma_lower_idempotent(ext@);
            lemma_kinds_lower(self@, ext@, 0);
        }
        scan_kinds(&self.formats, l.as_str())
    }

    /// Resolves a kind from an explicit request or, without one, from the candidates.
    pub fn resolve(&self, explicit: Option<&FormatKind>, candidates: &[FormatKind]) -> (r: Result<
        FormatKind,
        FormatError,
    >)
        ensures
            resolved_view(r) == spec_resolve(
                self@,
                match explicit {
                    Some(k) => Some(k@),
                    None => None,
                },
                candidates@.map_values(|k: FormatKind| k@),
            ),
    {
        resolve_among(&self.formats, explicit, candidates)
    }

    /// The enabled kinds in registration order.
    pub fn formats(&self) -> (r: &Vec<FormatKind>)
        ensures
            kinds_model(r@) == self@,
    {
        &self.formats
    }
}

/// A fresh asynchronous registry enabling every available built-in kind, in default order.
pub fn default_async_registry() -> (r: AsyncFormatRegistry)
    ensures
        r@ == spec_default_formats(),
{
    let mut formats: Vec<FormatKind> = Vec::new();
    enable_available_builtins(&mut formats);
    AsyncFormatRegistry { formats }
}

/// An explicit request is strict: it resolves to the requested kind exactly when
/// that kind is registered and available, and otherwise fails with
/// `UnknownFormat` naming it, whatever the candidates are.
pub proof fn law_explicit_resolution_is_strict(r: FormatRegistry, k: KindModel, cands: Seq<KindModel>)
    ensures
        spec_resolve(r@.formats, Some(k), cands) == if r@.formats.contains(k) && spec_available(k) {
            Ok::<KindModel, FormatErrorModel>(k)
        } else {
            Err::<KindModel, FormatErrorModel>(FormatErrorModel::UnknownFormat(k))
        },
{
}

/// Without an explicit request, of two registered candidates the first one wins
/// (provided its codec is available).
pub proof fn law_first_candidate_wins(r: FormatRegistry, a: KindModel, b: KindModel)
    requires
        r@.formats.contains(a),
        r@.formats.contains(b),
        spec_available(a),
    ensures
        spec_resolve(r@.formats, None, seq![a, b]) == Ok::<KindModel, FormatErrorModel>(a),
{
    assert(seq![a, b][0] == a);
}

/// If some kind from index `i` on lists the extension, the scan finds a kind that lists it.
proof fn lemma_scan_finds(ks: Seq<KindModel>, ext: Seq<char>, i: int, j: int)
    requires
        0 <= i <= j < ks.len(),
        kind_claims(ks[j], ext),
    ensures
        first_kind_claiming(ks, ext, i) matches Some(k) && kind_claims(k, ext),
    decreases j - i,
{
    if !kind_claims(ks[i], ext) {
        lemma_scan_finds(ks, ext, i + 1, j);
    }
}

/// When a registered built-in kind and a registered custom format both claim an
/// extension, extension lookup answers with a built-in kind.
pub proof fn law_builtin_extension_first(
    r: FormatRegistry,
    ext: Seq<char>,
    b: KindModel,
    c: CustomModel,
)
    requires
        r@.formats.contains(b),
        !(b is Custom),
        kind_claims(b, ext),
        r@.customs.contains(c),
        claims_extension(c.extensions, ext),
    ensures
        spec_kind_for_extension(r@, ext) matches Some(k) && !(k is Custom) && kind_claims(k, ext),
{
    let j = choose|j: int| 0 <= j < r@.formats.len() && r@.formats[j] == b;
    lemma_scan_finds(r@.formats, ext, 0, j);
    let k = first_kind_claiming(r@.formats, ext, 0).unwrap();
    if k is Custom {
        assert(spec_extensions(k).len() == 0);
    }
}

} // verus!
