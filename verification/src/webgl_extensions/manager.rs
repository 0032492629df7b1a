//! The extension registry of a context.

use vstd::prelude::*;
use std::collections::HashMap;
use crate::capabilities::{any_listed, names_in, str_views, CapabilitySet};
use crate::command::WebGLError;
use crate::text::{to_uppercase, uppercase};
use crate::textures::{TextureCapabilities, TextureCapabilityTable};
use crate::vertex_array::VertexArrayHandle;
use crate::webgl_extensions::ext::oesvertexarrayobject::OESVertexArrayObject;
use crate::webgl_extensions::extension::{
    lemma_keys_differ, lemma_names_differ, ExtensionKind, ExtensionState,
};
use crate::webgl_extensions::wrapper::{WebGLExtensionWrapper, WrapperState};

verus! {

broadcast use vstd::std_specs::hash::group_hash_axioms;

/// How the answer to a context parameter query is found.
#[derive(Clone, Copy, Debug, PartialEq, Eq, Hash, Structural)]
pub enum QueryParameterHandler {
    /// The vertex array that the vertex array object extension has bound.
    VertexArrayBinding,
}

/// Mathematical state of a registered extension.
#[verifier::ext_equal]
pub struct RegistrationState {
    /// The extension's name in upper case.
    pub key: Seq<char>,
    pub wrapper: WrapperState,
}

/// Mathematical state of the registry.
#[verifier::ext_equal]
pub struct ExtensionManagerState {
    /// The registered extensions, in the order of their registration.
    pub extensions: Seq<RegistrationState>,
    /// The capabilities that the driver has reported.
    pub gl_extensions: Set<Seq<char>>,
    pub textures: TextureCapabilities,
    /// The handler of each context parameter that has one.
    pub query_parameter_handlers: Map<u32, QueryParameterHandler>,
}

impl ExtensionManagerState {
    /// The registry before the driver was probed.
    pub open spec fn empty() -> ExtensionManagerState {
        ExtensionManagerState {
            extensions: Seq::empty(),
            gl_extensions: Set::empty(),
            textures: TextureCapabilities::initial(),
            query_parameter_handlers: Map::empty(),
        }
    }

    /// Validity of a registry: every extension is registered under the key
    /// of its kind, and no two under the same key.
    pub open spec fn wf(self) -> bool {
        &&& forall|i: int|
            0 <= i < self.extensions.len() ==> (#[trigger] self.extensions[i]).key
                == self.extensions[i].wrapper.kind.spec_key()
        &&& forall|i: int, j: int|
            0 <= i < j < self.extensions.len() ==> (#[trigger] self.extensions[i]).key
                != (#[trigger] self.extensions[j]).key
    }

    pub open spec fn is_initialized(self) -> bool {
        self.extensions.len() > 0
    }

    /// Whether an extension is registered under `key`.
    pub open spec fn is_registered(self, key: Seq<char>) -> bool {
        exists|i: int| 0 <= i < self.extensions.len() && (#[trigger] self.extensions[i]).key == key
    }

    /// The place of the extension registered under `key`.
    pub open spec fn position(self, key: Seq<char>) -> int {
        choose|i: int| 0 <= i < self.extensions.len() && (#[trigger] self.extensions[i]).key == key
    }

    /// The registry with the registration at `position` replaced.
    pub open spec fn with_wrapper(self, position: int, wrapper: WrapperState) -> ExtensionManagerState {
        ExtensionManagerState {
            extensions: self.extensions.update(
                position,
                RegistrationState { wrapper, ..self.extensions[position] },
            ),
            ..self
        }
    }

    /// Registers an extension of kind `kind`, without an instance. It takes
    /// the place of an extension registered under the same key, if there is
    /// one, and the last place otherwise.
    pub open spec fn register(self, kind: ExtensionKind) -> ExtensionManagerState {
        let key = kind.spec_key();
        if self.is_registered(key) {
            self.with_wrapper(self.position(key), WrapperState::fresh(kind))
        } else {
            ExtensionManagerState {
                extensions: self.extensions.push(
                    RegistrationState { key, wrapper: WrapperState::fresh(kind) },
                ),
                ..self
            }
        }
    }

    /// Registers every kind of extension that the registry knows.
    pub open spec fn register_all(self) -> ExtensionManagerState {
        self.register(ExtensionKind::TextureFloat).register(ExtensionKind::VertexArrayObject)
    }

    /// The registry after its initialisation with the capability string
    /// `gl_str` of the driver.
    pub open spec fn init(self, gl_str: Seq<char>) -> ExtensionManagerState {
        (ExtensionManagerState { gl_extensions: names_in(gl_str), ..self }).register_all()
    }

    /// The names of the supported extensions, in the order of registration.
    pub open spec fn supported_names(self) -> Seq<Seq<char>> {
        self.extensions.filter(
            |registration: RegistrationState|
                registration.wrapper.is_supported(self.gl_extensions),
        ).map_values(|registration: RegistrationState| registration.wrapper.kind.spec_name())
    }

    /// Whether a request for the extension registered under `key` succeeds.
    pub open spec fn is_available(self, key: Seq<char>) -> bool {
        self.is_registered(key) && self.extensions[self.position(key)].wrapper.is_supported(
            self.gl_extensions,
        )
    }

    /// The kind of the extension that a request under `key` yields.
    pub open spec fn get_or_init_result(self, key: Seq<char>) -> Option<ExtensionKind> {
        if self.is_available(key) {
            Some(self.extensions[self.position(key)].wrapper.kind)
        } else {
            None
        }
    }

    /// The registry after a request for the extension registered under
    /// `key`. A request that fails changes nothing, and neither does one for
    /// an extension that has its instance. The first successful request
    /// creates the instance and then applies the effect of enabling the
    /// extension.
    pub open spec fn get_or_init(self, key: Seq<char>) -> ExtensionManagerState {
        if self.is_available(key) {
            let position = self.position(key);
            let wrapper = self.extensions[position].wrapper;
            if wrapper.instance is Some {
                self
            } else {
                wrapper.kind.enabled(self.with_wrapper(position, wrapper.instantiated()))
            }
        } else {
            self
        }
    }

    /// Whether an extension of kind `kind` is registered and has its
    /// instance.
    pub open spec fn has_instance(self, kind: ExtensionKind) -> bool {
        exists|i: int|
            0 <= i < self.extensions.len() && (#[trigger] self.extensions[i]).wrapper.kind == kind
                && self.extensions[i].wrapper.instance is Some
    }

    /// The instance of the extension of kind `kind`.
    pub open spec fn instance(self, kind: ExtensionKind) -> ExtensionState {
        self.extensions[self.instance_position(kind)].wrapper.instance->0
    }

    /// The vertex array that the vertex array object extension has bound, if
    /// the extension has its instance.
    pub open spec fn vertex_array_binding(self) -> Option<Option<VertexArrayHandle>> {
        if self.has_instance(ExtensionKind::VertexArrayObject) {
            match self.instance(ExtensionKind::VertexArrayObject) {
                ExtensionState::VertexArrayObject(bound) => Some(bound),
                ExtensionState::TextureFloat => None,
            }
        } else {
            None
        }
    }

    /// The answer to the query for the context parameter `name`: none if the
    /// parameter has no handler; else what the handler finds, which is an
    /// error if the extension behind it has no instance.
    pub open spec fn query_parameter(self, name: u32) -> Option<
        Result<Option<VertexArrayHandle>, WebGLError>,
    > {
        if self.query_parameter_handlers.dom().contains(name) {
            match self.query_parameter_handlers[name] {
                QueryParameterHandler::VertexArrayBinding => match self.vertex_array_binding() {
                    Some(bound) => Some(Ok(bound)),
                    None => Some(Err(WebGLError::InvalidOperation)),
                },
            }
        } else {
            None
        }
    }
}

/// A registered extension.
struct Registration {
    key: String,
    wrapper: WebGLExtensionWrapper,
}

impl View for Registration {
    type V = RegistrationState;

    closed spec fn view(&self) -> RegistrationState {
        RegistrationState { key: self.key@, wrapper: self.wrapper@ }
    }
}

/// The states of a list of registrations, place by place.
spec fn registration_states(registrations: Seq<Registration>) -> Seq<RegistrationState> {
    Seq::new(registrations.len(), |i: int| registrations[i]@)
}

/// The extension registry of a context. It knows the extensions by name,
/// decides from the capabilities of the driver which of them scripts may
/// have, creates their instances on first request, and owns the texture
/// capabilities that they widen.
pub struct WebGLExtensionManager {
    extensions: Vec<Registration>,
    gl_extensions: CapabilitySet,
    textures: TextureCapabilityTable,
    query_parameter_handlers: HashMap<u32, QueryParameterHandler>,
}

impl View for WebGLExtensionManager {
    type V = ExtensionManagerState;

    closed spec fn view(&self) -> ExtensionManagerState {
        ExtensionManagerState {
            extensions: registration_states(self.extensions@),
            gl_extensions: self.gl_extensions@,
            textures: self.textures@,
            query_parameter_handlers: self.query_parameter_handlers@,
        }
    }
}

impl WebGLExtensionManager {
    /// A registry that has not probed the driver yet.
    pub fn new() -> (manager: WebGLExtensionManager)
        ensures
            manager@ == ExtensionManagerState::empty(),
            manager@.wf(),
    {
        let manager = WebGLExtensionManager {
            extensions: Vec::new(),
            gl_extensions: CapabilitySet::new(),
            textures: TextureCapabilityTable::new(),
            query_parameter_handlers: HashMap::new(),
        };
        manager
    }

    /// Whether the driver lists the capability `name`.
    pub fn supports_gl_extension(&self, name: &str) -> (supported: bool)
        ensures
            supported == self@.gl_extensions.contains(name@),
    {
        self.gl_extensions.contains(name)
    }

    /// Whether the driver lists at least one of the capabilities `names`.
    pub fn supports_any_gl_extension(&self, names: &[&str]) -> (supported: bool)
        ensures
            supported == any_listed(self@.gl_extensions, str_views(names@)),
    {
        self.gl_extensions.contains_any(names)
    }

    /// Allows the use of texels of `data_type`.
    pub fn enable_tex_type(&mut self, data_type: u32)
        ensures
            final(self)@ == (ExtensionManagerState {
                textures: old(self)@.textures.enable_tex_type(data_type),
                ..old(self)@
            }),
    {
        self.textures.enable_tex_type(data_type);
    }

    pub fn is_tex_type_enabled(&self, data_type: u32) -> (enabled: bool)
        ensures
            enabled == self@.textures.is_tex_type_enabled(data_type),
    {
        self.textures.is_tex_type_enabled(data_type)
    }

    /// Records that `effective_internal_format` is to be used in place of
    /// `source_internal_format` for texels of `source_data_type`.
    pub fn add_effective_tex_internal_format(
        &mut self,
        source_internal_format: u32,
        source_data_type: u32,
        effective_internal_format: u32,
    )
        ensures
            final(self)@ == (ExtensionManagerState {
                textures: old(self)@.textures.add_effective_tex_internal_format(
                    source_internal_format,
                    source_data_type,
                    effective_internal_format,
                ),
                ..old(self)@
            }),
    {
        self.textures.add_effective_tex_internal_format(
            source_internal_format,
            source_data_type,
            effective_internal_format,
        );
    }

    /// The internal format to use for texels of `source_data_type` in
    /// `source_internal_format`.
    pub fn get_effective_tex_internal_format(
        &self,
        source_internal_format: u32,
        source_data_type: u32,
    ) -> (format: u32)
        ensures
            format == self@.textures.effective_tex_internal_format(
                source_internal_format,
                source_data_type,
            ),
    {
        self.textures.get_effective_tex_internal_format(source_internal_format, source_data_type)
    }

    /// Allows the filtering of texels of `text_data_type`.
    pub fn enable_filterable_tex_type(&mut self, text_data_type: u32)
        ensures
            final(self)@ == (ExtensionManagerState {
                textures: old(self)@.textures.enable_filterable_tex_type(text_data_type),
                ..old(self)@
            }),
    {
        self.textures.enable_filterable_tex_type(text_data_type);
    }

    pub fn is_filterable(&self, text_data_type: u32) -> (filterable: bool)
        ensures
            filterable == self@.textures.is_filterable(text_data_type),
    {
        self.textures.is_filterable(text_data_type)
    }

    /// Makes `handler` answer the query for the context parameter `name`. A
    /// later handler for the same parameter replaces an earlier one.
    pub fn add_query_parameter_handler(&mut self, name: u32, handler: QueryParameterHandler)
        ensures
            final(self)@ == (ExtensionManagerState {
                query_parameter_handlers: old(self)@.query_parameter_handlers.insert(name, handler),
                ..old(self)@
            }),
    {
        self.query_parameter_handlers.insert(name, handler);
    }

    /// The handler that answers the query for the context parameter `name`.
    pub fn get_query_parameter_handler(&self, name: u32) -> (handler: Option<QueryParameterHandler>)
        ensures
            handler is Some <==> self@.query_parameter_handlers.dom().contains(name),
            handler is Some ==> handler->0 == self@.query_parameter_handlers[name],
    {
        match self.query_parameter_handlers.get(&name) {
            Some(handler) => Some(*handler),
            None => None,
        }
    }
}

impl ExtensionManagerState {
    /// The place of the extension of kind `kind` that has its instance.
    pub open spec fn instance_position(self, kind: ExtensionKind) -> int {
        choose|i: int|
            0 <= i < self.extensions.len() && (#[trigger] self.extensions[i]).wrapper.kind == kind
                && self.extensions[i].wrapper.instance is Some
    }

    /// The registry after the vertex array object extension has changed
    /// which vertex array it has bound.
    pub open spec fn with_vertex_array_binding(
        self,
        bound: Option<VertexArrayHandle>,
    ) -> ExtensionManagerState {
        self.with_wrapper(
            self.instance_position(ExtensionKind::VertexArrayObject),
            WrapperState {
                kind: ExtensionKind::VertexArrayObject,
                instance: Some(ExtensionState::VertexArrayObject(bound)),
            },
        )
    }
}

/// In a valid registry no two extensions are of the same kind.
pub proof fn lemma_kinds_are_unique(state: ExtensionManagerState, i: int, j: int)
    requires
        state.wf(),
        0 <= i < state.extensions.len(),
        0 <= j < state.extensions.len(),
        state.extensions[i].wrapper.kind == state.extensions[j].wrapper.kind,
    ensures
        i == j,
{
    if i < j {
        assert(state.extensions[i].key != state.extensions[j].key);
    }
    if j < i {
        assert(state.extensions[j].key != state.extensions[i].key);
    }
}

impl WebGLExtensionManager {
    /// The place of the extension registered under `key`.
    fn find(&self, key: &str) -> (position: Option<usize>)
        requires
            self@.wf(),
        ensures
            position is Some <==> self@.is_registered(key@),
            position is Some ==> position->0 == self@.position(key@),
    {
        let wanted = key.to_owned();
        let mut i: usize = 0;
        while i < self.extensions.len()
            invariant
                self@.wf(),
                wanted@ == key@,
                i <= self.extensions@.len(),
                forall|j: int| 0 <= j < i ==> (#[trigger] self@.extensions[j]).key != key@,
            decreases self.extensions@.len() - i,
        {
            if self.extensions[i].key == wanted {
                proof {
                    assert(self@.extensions[i as int].key == key@);
                    lemma_position_is_unique(self@, key@, i as int);
                }
                return Some(i);
            }
            i = i + 1;
        }
        None
    }

    /// The place of the extension of kind `kind`.
    fn find_kind(&self, kind: ExtensionKind) -> (position: Option<usize>)
        ensures
            position is Some ==> position->0 < self@.extensions.len()
                && self@.extensions[position->0 as int].wrapper.kind == kind,
            position is None ==> forall|j: int|
                0 <= j < self@.extensions.len() ==> (#[trigger] self@.extensions[j]).wrapper.kind
                    != kind,
    {
        let mut i: usize = 0;
        while i < self.extensions.len()
            invariant
                i <= self.extensions@.len(),
                forall|j: int| 0 <= j < i ==> (#[trigger] self@.extensions[j]).wrapper.kind != kind,
            decreases self.extensions@.len() - i,
        {
            if self.extensions[i].wrapper.kind() == kind {
                assert(self@.extensions[i as int].wrapper.kind == kind);
                return Some(i);
            }
            i = i + 1;
        }
        None
    }

    /// Registers an extension of kind `kind`, without an instance, under the
    /// key of its kind. It takes the place of an extension registered under
    /// the same key, if there is one, and the last place otherwise.
    pub fn register(&mut self, kind: ExtensionKind)
        requires
            old(self)@.wf(),
        ensures
            final(self)@ == old(self)@.register(kind),
            final(self)@.wf(),
    {
        match self.find(kind.key()) {
            Some(position) => {
                self.extensions[position].wrapper = WebGLExtensionWrapper::new(kind);
            },
            None => {
                self.extensions.push(
                    Registration {
                        key: kind.key().to_owned(),
                        wrapper: WebGLExtensionWrapper::new(kind),
                    },
                );
            },
        }
        assert(self@ == old(self)@.register(kind));
    }

    /// Registers every kind of extension that the registry knows.
    fn register_all_extensions(&mut self)
        requires
            old(self)@.wf(),
        ensures
            final(self)@ == old(self)@.register_all(),
            final(self)@.wf(),
    {
        self.register(ExtensionKind::TextureFloat);
        self.register(ExtensionKind::VertexArrayObject);
    }

    /// Initialises the registry on the first call, and does nothing on any
    /// later one. The first call asks `cb` for the capability string of the
    /// driver, keeps the names that the string lists, and registers every
    /// kind of extension that the registry knows. `cb` is called at most
    /// once, and not at all once the registry is initialised.
    pub fn init_once<F: FnOnce() -> String>(&mut self, cb: F)
        requires
            old(self)@.wf(),
            call_requires(cb, ()),
        ensures
            final(self)@.wf(),
            old(self)@.is_initialized() ==> final(self)@ == old(self)@,
            !old(self)@.is_initialized() ==> exists|gl_str: String|
                call_ensures(cb, (), gl_str) && final(self)@ == old(self)@.init(gl_str@),
    {
        if self.extensions.len() == 0 {
            let gl_str = cb();
            self.gl_extensions = CapabilitySet::parse(gl_str.as_str());
            self.register_all_extensions();
            assert(self@ == old(self)@.init(gl_str@));
        }
    }

    /// The names of the extensions that scripts may have, in the order of
    /// registration.
    pub fn get_suported_extensions(&self) -> (names: Vec<&'static str>)
        ensures
            str_views(names@) == self@.supported_names(),
    {
        let ghost supported = |registration: RegistrationState|
            registration.wrapper.is_supported(self@.gl_extensions);
        let ghost name = |registration: RegistrationState| registration.wrapper.kind.spec_name();
        let mut names: Vec<&'static str> = Vec::new();
        let mut i: usize = 0;
        while i < self.extensions.len()
            invariant
                i <= self.extensions@.len(),
                supported == |registration: RegistrationState|
                    registration.wrapper.is_supported(self@.gl_extensions),
                name == |registration: RegistrationState| registration.wrapper.kind.spec_name(),
                str_views(names@) == self@.extensions.take(i as int).filter(supported).map_values(
                    name,
                ),
            decreases self.extensions@.len() - i,
        {
            let ghost seen = self@.extensions.take(i as int);
            let ghost next = self@.extensions[i as int];
            let ghost listed = names@;
            proof {
                assert(self@.extensions.take(i + 1) =~= seen.push(next));
                seen.lemma_filter_push(next, supported);
            }
            if self.extensions[i].wrapper.is_supported(self) {
                names.push(self.extensions[i].wrapper.name());
                proof {
                    seen.filter(supported).lemma_push_map_commute(name, next);
                    assert(str_views(names@) =~= str_views(listed).push(name(next)));
                }
            }
            i = i + 1;
        }
        assert(self@.extensions.take(i as int) =~= self@.extensions);
        names
    }

    /// Answers a request for the extension called `name`. The name is put
    /// into upper case and looked up among the keys, so the case of its
    /// letters does not matter. The answer is the kind of the extension if it
    /// is registered and supported, and nothing otherwise. The first request
    /// that succeeds creates the instance of the extension and then applies
    /// the effect of enabling it; later ones find the instance and change
    /// nothing.
    pub fn get_or_init_extension(&mut self, name: &str) -> (extension: Option<ExtensionKind>)
        requires
            old(self)@.wf(),
        ensures
            final(self)@.wf(),
            final(self)@ == old(self)@.get_or_init(uppercase(name@)),
            extension == old(self)@.get_or_init_result(uppercase(name@)),
    {
        let key = to_uppercase(name);
        self.get_or_init_extension_by_key(key.as_str())
    }

    /// Answers a request for the extension registered under `key`; see
    /// [`WebGLExtensionManager::get_or_init_extension`].
    pub fn get_or_init_extension_by_key(&mut self, key: &str) -> (extension: Option<ExtensionKind>)
        requires
            old(self)@.wf(),
        ensures
            final(self)@.wf(),
            final(self)@ == old(self)@.get_or_init(key@),
            extension == old(self)@.get_or_init_result(key@),
    {
        let position = match self.find(key) {
            Some(position) => position,
            None => {
                return None;
            },
        };
        if !self.extensions[position].wrapper.is_supported(self) {
            return None;
        }
        let kind = self.extensions[position].wrapper.kind();
        let created = self.extensions[position].wrapper.instance_or_init();
        assert(self@ == old(self)@.with_wrapper(
            position as int,
            old(self)@.extensions[position as int].wrapper.instantiated(),
        ));
        if created {
            kind.enable(self);
        }
        Some(kind)
    }

    /// The instance of the vertex array object extension, if there is one.
    pub fn vertex_array_object(&self) -> (extension: Option<&OESVertexArrayObject>)
        requires
            self@.wf(),
        ensures
            extension is Some <==> self@.vertex_array_binding() is Some,
            extension is Some ==> self@.vertex_array_binding() == Some(extension->0@),
    {
        match self.find_kind(ExtensionKind::VertexArrayObject) {
            Some(position) => {
                proof {
                    if self@.has_instance(ExtensionKind::VertexArrayObject) {
                        lemma_kinds_are_unique(
                            self@,
                            position as int,
                            self@.instance_position(ExtensionKind::VertexArrayObject),
                        );
                    }
                }
                match &self.extensions[position].wrapper {
                    WebGLExtensionWrapper::VertexArrayObject(Some(extension)) => Some(extension),
                    _ => None,
                }
            },
            None => None,
        }
    }

    /// The instance of the vertex array object extension, if there is one,
    /// for changing which vertex array it has bound.
    pub fn vertex_array_object_mut(&mut self) -> (extension: Option<&mut OESVertexArrayObject>)
        requires
            old(self)@.wf(),
        ensures
            extension is Some <==> old(self)@.vertex_array_binding() is Some,
            extension is Some ==> old(self)@.vertex_array_binding() == Some((*extension->0)@)
                && final(self)@ == old(self)@.with_vertex_array_binding((*final(extension->0))@),
            extension is None ==> final(self)@ == old(self)@,
    {
        let position = match self.find_kind(ExtensionKind::VertexArrayObject) {
            Some(position) => position,
            None => {
                return None;
            },
        };
        if !self.extensions[position].wrapper.is_instantiated() {
            proof {
                if self@.has_instance(ExtensionKind::VertexArrayObject) {
                    lemma_kinds_are_unique(
                        self@,
                        position as int,
                        self@.instance_position(ExtensionKind::VertexArrayObject),
                    );
                }
            }
            return None;
        }
        proof {
            assert(self@.extensions[position as int].wrapper.instance is Some);
            assert(self@.has_instance(ExtensionKind::VertexArrayObject));
            lemma_kinds_are_unique(
                self@,
                position as int,
                self@.instance_position(ExtensionKind::VertexArrayObject),
            );
        }
        match &mut self.extensions[position].wrapper {
            WebGLExtensionWrapper::VertexArrayObject(Some(extension)) => Some(extension),
            _ => None,
        }
    }

    /// The answer to the query for the context parameter `name`: nothing if
    /// the parameter has no handler; else what the handler finds, which is
    /// an error if the extension behind it has no instance.
    pub fn query_parameter(&self, name: u32) -> (answer: Option<
        Result<Option<VertexArrayHandle>, WebGLError>,
    >)
        requires
            self@.wf(),
        ensures
            answer == self@.query_parameter(name),
    {
        match self.get_query_parameter_handler(name) {
            Some(QueryParameterHandler::VertexArrayBinding) => match self.vertex_array_object() {
                Some(extension) => Some(Ok(extension.get_current_binding())),
                None => Some(Err(WebGLError::InvalidOperation)),
            },
            None => None,
        }
    }
}

/// A request leaves the registrations in place: the same keys and kinds at
/// the same places.
proof fn lemma_get_or_init_keeps_places(state: ExtensionManagerState, key: Seq<char>)
    requires
        state.wf(),
    ensures
        state.get_or_init(key).wf(),
        state.get_or_init(key).gl_extensions == state.gl_extensions,
        state.get_or_init(key).extensions.len() == state.extensions.len(),
        forall|i: int|
            0 <= i < state.extensions.len() ==> (#[trigger] state.get_or_init(key).extensions[i]).key
                == state.extensions[i].key && state.get_or_init(key).extensions[i].wrapper.kind
                == state.extensions[i].wrapper.kind,
        state.is_available(key) ==> state.get_or_init(key).extensions[state.position(
            key,
        )].wrapper.instance is Some,
{
}

/// In a valid registry the place of a key is the only place that holds it.
proof fn lemma_position_is_unique(state: ExtensionManagerState, key: Seq<char>, i: int)
    requires
        state.wf(),
        0 <= i < state.extensions.len(),
        state.extensions[i].key == key,
    ensures
        state.is_registered(key),
        state.position(key) == i,
{
    let chosen = state.position(key);
    if chosen < i {
        assert(state.extensions[chosen].key != state.extensions[i].key);
    }
    if i < chosen {
        assert(state.extensions[i].key != state.extensions[chosen].key);
    }
}

/// What initialisation makes of an empty registry: the two kinds of
/// extension in their order, without instances, on top of the capabilities
/// that the string lists.
pub proof fn lemma_init_registers_every_kind(gl_str: Seq<char>)
    ensures
        ExtensionManagerState::empty().init(gl_str) == (ExtensionManagerState {
            extensions: seq![
                RegistrationState {
                    key: ExtensionKind::TextureFloat.spec_key(),
                    wrapper: WrapperState::fresh(ExtensionKind::TextureFloat),
                },
                RegistrationState {
                    key: ExtensionKind::VertexArrayObject.spec_key(),
                    wrapper: WrapperState::fresh(ExtensionKind::VertexArrayObject),
                },
            ],
            gl_extensions: names_in(gl_str),
            ..ExtensionManagerState::empty()
        }),
        ExtensionManagerState::empty().init(gl_str).wf(),
{
    lemma_keys_differ(ExtensionKind::TextureFloat, ExtensionKind::VertexArrayObject);
    let probed = ExtensionManagerState {
        gl_extensions: names_in(gl_str),
        ..ExtensionManagerState::empty()
    };
    let first = probed.register(ExtensionKind::TextureFloat);
    assert(!probed.is_registered(ExtensionKind::TextureFloat.spec_key()));
    assert(first.extensions.len() == 1);
    assert(!first.is_registered(ExtensionKind::VertexArrayObject.spec_key()));
}

/// The list of supported extensions agrees with the requests: the name of
/// a kind of extension is listed exactly when a request under the key of
/// that kind succeeds.
pub proof fn lemma_listed_iff_available(state: ExtensionManagerState, kind: ExtensionKind)
    requires
        state.wf(),
    ensures
        state.supported_names().contains(kind.spec_name()) <==> state.is_available(
            kind.spec_key(),
        ),
{
    let supported = |registration: RegistrationState|
        registration.wrapper.is_supported(state.gl_extensions);
    let name = |registration: RegistrationState| registration.wrapper.kind.spec_name();
    let kept = state.extensions.filter(supported);
    if state.supported_names().contains(kind.spec_name()) {
        let place = choose|place: int|
            0 <= place < kept.map_values(name).len() && kept.map_values(name)[place]
                == kind.spec_name();
        let registration = kept[place];
        state.extensions.lemma_filter_pred(supported, place);
        assert(kept.contains(registration));
        state.extensions.lemma_filter_contains_rev(supported, registration);
        let i = choose|i: int| 0 <= i < state.extensions.len() && state.extensions[i] == registration;
        if registration.wrapper.kind != kind {
            lemma_names_differ(registration.wrapper.kind, kind);
        }
        lemma_position_is_unique(state, kind.spec_key(), i);
    }
    if state.is_available(kind.spec_key()) {
        let i = state.position(kind.spec_key());
        let registration = state.extensions[i];
        if registration.wrapper.kind != kind {
            lemma_keys_differ(registration.wrapper.kind, kind);
        }
        state.extensions.lemma_filter_contains(supported, i);
        let place = choose|place: int| 0 <= place < kept.len() && kept[place] == registration;
        assert(kept.map_values(name)[place] == kind.spec_name());
    }
}

/// Enabling happens once. After a request for an extension, a second request
/// for it yields the same answer and changes nothing at all: the effects of
/// enabling the extension are neither applied again nor duplicated.
pub proof fn lemma_second_request_changes_nothing(state: ExtensionManagerState, key: Seq<char>)
    requires
        state.wf(),
    ensures
        state.get_or_init(key).get_or_init(key) == state.get_or_init(key),
        state.get_or_init(key).get_or_init_result(key) == state.get_or_init_result(key),
{
    let once = state.get_or_init(key);
    lemma_get_or_init_keeps_places(state, key);
    if state.is_available(key) {
        let position = state.position(key);
        lemma_position_is_unique(once, key, position);
    } else {
        if once.is_registered(key) {
            let found = once.position(key);
            lemma_position_is_unique(state, key, found);
        }
    }
}

/// Once an extension has its instance it stays available, whatever the
/// capabilities of the driver are taken to be afterwards.
pub proof fn lemma_support_is_sticky(
    state: ExtensionManagerState,
    key: Seq<char>,
    gl_extensions: Set<Seq<char>>,
)
    requires
        state.wf(),
        state.is_available(key),
    ensures
        (ExtensionManagerState { gl_extensions, ..state.get_or_init(key) }).is_available(key),
{
    let once = state.get_or_init(key);
    lemma_get_or_init_keeps_places(state, key);
    let later = ExtensionManagerState { gl_extensions, ..once };
    lemma_position_is_unique(later, key, state.position(key));
}

/// Whether the driver lists a capability does not depend on which extensions
/// have their instances: a request changes the answer for no list of names.
pub proof fn lemma_driver_support_ignores_instances(
    state: ExtensionManagerState,
    key: Seq<char>,
    names: Seq<Seq<char>>,
)
    ensures
        state.get_or_init(key).gl_extensions == state.gl_extensions,
        any_listed(state.get_or_init(key).gl_extensions, names) == any_listed(
            state.gl_extensions,
            names,
        ),
{
}

/// A request never narrows the texture capabilities.
pub proof fn lemma_requests_only_widen(state: ExtensionManagerState, key: Seq<char>)
    ensures
        state.textures.widens_to(state.get_or_init(key).textures),
{
}

} // verus!
