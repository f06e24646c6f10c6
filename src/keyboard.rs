//! The engine: per-key active layers, the running macro instances, and the tag context.
use vstd::prelude::*;
use crate::macros::{
    CurrentSequence, MacroSource, MacroSourceKey, MacroState, MacroView, TriggerState,
    initial_view, macro_def, ticks_to,
};
use crate::profile::{
    ActionEvent, Channel, DeviceKey, DeviceKeyLayer, DeviceLayers, KeyId, KeyboardProfile,
    LayerEvent, LayerId, LayerTag, Macro, MacroIndex, VirtualKey, active_index_from, tag_views,
};
use crate::tags::{TagList, remove_first};
use crate::time::Duration;

verus! {

/// `m` with its trigger released.
pub open spec fn stopped(m: MacroView) -> MacroView {
    MacroView { trigger: TriggerState::Stopping, ..m }
}

/// The instances started from `source` for the macro slots `slots`, in order; a slot that
/// names no macro of `macros` starts nothing.
pub open spec fn started(macros: Seq<Macro>, slots: Seq<MacroIndex>, source: MacroSource) -> Seq<
    MacroView,
>
    decreases slots.len(),
{
    if slots.len() == 0 {
        Seq::empty()
    } else {
        let rest = started(macros, slots.drop_last(), source);
        let i = slots.last().0 as int;
        if i < macros.len() {
            rest.push(initial_view(macro_def(macros[i]), source))
        } else {
            rest
        }
    }
}

/// The channels cut by the instances `news`, together.
pub open spec fn cut_set(news: Seq<MacroView>) -> Seq<Channel>
    decreases news.len(),
{
    if news.len() == 0 {
        Seq::empty()
    } else {
        cut_set(news.drop_last()) + news.last().def.cut_channels
    }
}

/// Whether `m` plays on one of the channels `cuts`.
pub open spec fn is_cut(m: MacroView, cuts: Seq<Channel>) -> bool {
    match m.def.play_channel {
        Some(c) => cuts.contains(c),
        None => false,
    }
}

/// `running` once the instances `news` have started: those that play on a channel that one of
/// `news` cuts are stopped, and `news` follow them.
pub open spec fn press_running(running: Seq<MacroView>, news: Seq<MacroView>) -> Seq<MacroView> {
    running.map_values(
        |m: MacroView|
            if is_cut(m, cut_set(news)) {
                stopped(m)
            } else {
                m
            },
    ) + news
}

/// `running` once `key` is released: every instance it started is stopped.
pub open spec fn release_running(running: Seq<MacroView>, key: MacroSourceKey) -> Seq<MacroView> {
    running.map_values(
        |m: MacroView|
            if m.source.key == key {
                stopped(m)
            } else {
                m
            },
    )
}

/// Whether the active layer of `dl` changes from tags `old_v` to tags `new_v`, to a layer other
/// than `source_layer`.
pub open spec fn layer_moved(
    dl: DeviceLayers,
    old_v: (Seq<Seq<char>>, Seq<Seq<char>>),
    new_v: (Seq<Seq<char>>, Seq<Seq<char>>),
    source_layer: LayerId,
) -> bool {
    dl.spec_active_layer(new_v).id != dl.spec_active_layer(old_v).id && source_layer
        != dl.spec_active_layer(new_v).id
}

/// Whether the key that started `m` moved to a layer other than the one `m` was started on.
pub open spec fn source_moved(
    p: KeyboardProfile,
    old_v: (Seq<Seq<char>>, Seq<Seq<char>>),
    new_v: (Seq<Seq<char>>, Seq<Seq<char>>),
    m: MacroView,
) -> bool {
    match m.source.key {
        MacroSourceKey::PhysicalKey(id) => exists|i: int|
            0 <= i < p.keys@.len() && #[trigger] p.keys@[i].id == id && layer_moved(
                p.keys@[i].layers,
                old_v,
                new_v,
                m.source.layer,
            ),
        MacroSourceKey::VirtualKey(i) => i < p.virtual_keys@.len() && layer_moved(
            p.virtual_keys@[i as int].layers,
            old_v,
            new_v,
            m.source.layer,
        ),
    }
}

/// The whole engine state, as far as its behaviour goes.
pub struct EngineView {
    pub running: Seq<MacroView>,
    pub pressed: Seq<bool>,
    pub tags: (Seq<Seq<char>>, Seq<Seq<char>>),
}

/// `v` once the tags become `new_v`: instances whose key moved to another layer are stopped.
pub open spec fn with_tags(
    p: KeyboardProfile,
    v: EngineView,
    new_v: (Seq<Seq<char>>, Seq<Seq<char>>),
) -> EngineView {
    EngineView {
        running: v.running.map_values(
            |m: MacroView|
                if source_moved(p, v.tags, new_v, m) {
                    stopped(m)
                } else {
                    m
                },
        ),
        tags: new_v,
        ..v
    }
}

/// The first position in `keys`, from `i` on, of a key with identity `id`.
pub open spec fn find_key(keys: Seq<DeviceKey>, id: KeyId, i: int) -> Option<int>
    decreases keys.len() - i,
{
    if i < 0 || i >= keys.len() {
        None
    } else if keys[i].id == id {
        Some(i)
    } else {
        find_key(keys, id, i + 1)
    }
}

/// The views of a list of instances.
pub open spec fn views(s: Seq<MacroState>) -> Seq<MacroView> {
    s.map_values(|m: MacroState| m@)
}

/// A physical key as a macro source, with the layer it starts on.
#[derive(Debug, Clone, Copy)]
pub struct PhysicalKeyState {
    pub key: KeyId,
    pub current_layer: LayerId,
}

impl PhysicalKeyState {
    pub fn from(key: &DeviceKey) -> (r: PhysicalKeyState)
        ensures
            r.key == key.id,
            r.current_layer == key.layers.default_layer.id,
    {
        PhysicalKeyState { key: key.id, current_layer: key.layers.default_layer.id }
    }

    pub fn source(&self) -> (r: MacroSource)
        ensures
            r == (MacroSource {
                key: MacroSourceKey::PhysicalKey(self.key),
                layer: self.current_layer,
            }),
    {
        MacroSource { key: MacroSourceKey::PhysicalKey(self.key), layer: self.current_layer }
    }
}

/// A virtual key, by position, as a macro source, with the layer it starts on.
#[derive(Debug, Clone, Copy)]
pub struct VirtualKeyState {
    pub id: usize,
    pub current_layer: LayerId,
}

impl VirtualKeyState {
    pub fn from(key: &VirtualKey, id: usize) -> (r: VirtualKeyState)
        ensures
            r.id == id,
            r.current_layer == key.layers.default_layer.id,
    {
        VirtualKeyState { id, current_layer: key.layers.default_layer.id }
    }

    pub fn source(&self) -> (r: MacroSource)
        ensures
            r == (MacroSource { key: MacroSourceKey::VirtualKey(self.id), layer: self.current_layer }),
    {
        MacroSource { key: MacroSourceKey::VirtualKey(self.id), layer: self.current_layer }
    }
}

pub open spec fn sel_int(sel: Option<usize>) -> Option<int> {
    match sel {
        Some(i) => Some(i as int),
        None => None,
    }
}

/// The engine: it owns the profile and drives the macros its keys start.
pub struct KeyboardState {
    profile: KeyboardProfile,
    key_layers: Vec<Option<usize>>,
    virtual_layers: Vec<Option<usize>>,
    virtual_pressed: Vec<bool>,
    tags: TagList,
    running: Vec<MacroState>,
}

impl View for KeyboardState {
    type V = EngineView;

    closed spec fn view(&self) -> EngineView {
        EngineView {
            running: views(self.running@),
            pressed: self.virtual_pressed@,
            tags: self.tags@,
        }
    }
}

impl KeyboardState {
    /// The profile the engine runs.
    pub closed spec fn spec_profile(&self) -> KeyboardProfile {
        self.profile
    }

    /// Whether the cached layer of every key is the one its tags select under `v`.
    closed spec fn layers_cached(&self, v: (Seq<Seq<char>>, Seq<Seq<char>>)) -> bool {
        &&& self.key_layers@.len() == self.profile.keys@.len()
        &&& self.virtual_layers@.len() == self.profile.virtual_keys@.len()
        &&& forall|i: int|
            0 <= i < self.key_layers@.len() ==> sel_int(#[trigger] self.key_layers@[i])
                == self.profile.keys@[i].layers.spec_active_index(v)
        &&& forall|i: int|
            0 <= i < self.virtual_layers@.len() ==> sel_int(#[trigger] self.virtual_layers@[i])
                == self.profile.virtual_keys@[i].layers.spec_active_index(v)
    }

    pub closed spec fn wf(&self) -> bool {
        &&& self.layers_cached(self.tags@)
        &&& self.virtual_pressed@.len() == self.profile.virtual_keys@.len()
        &&& forall|i: int| 0 <= i < self.running@.len() ==> (#[trigger] self.running@[i]).wf()
    }

    pub fn profile(&self) -> (r: &KeyboardProfile)
        ensures
            *r == self.spec_profile(),
    {
        &self.profile
    }

    /// An engine over `profile`, with no tags and no running macro: each key is on the layer
    /// its tags select.
    pub fn from(profile: KeyboardProfile) -> (r: KeyboardState)
        ensures
            r.wf(),
            r.spec_profile() == profile,
            r@.running.len() == 0,
            r@.pressed == Seq::new(profile.virtual_keys@.len(), |i: int| false),
            r@.tags.0.len() == 0,
            r@.tags.1.len() == 0,
    {
        let tags = TagList::new();
        let key_layers = Self::select_key_layers(&profile, &tags);
        let virtual_layers = Self::select_virtual_layers(&profile, &tags);
        let mut virtual_pressed: Vec<bool> = Vec::new();
        let mut i: usize = 0;
        while i < profile.virtual_keys.len()
            invariant
                i <= profile.virtual_keys@.len(),
                virtual_pressed@ == Seq::new(i as nat, |j: int| false),
            decreases profile.virtual_keys.len() - i,
        {
            virtual_pressed.push(false);
            proof {
                assert(virtual_pressed@ =~= Seq::new((i + 1) as nat, |j: int| false));
            }
            i = i + 1;
        }
        let r = KeyboardState {
            profile,
            key_layers,
            virtual_layers,
            virtual_pressed,
            tags,
            running: Vec::new(),
        };
        proof {
            assert(r@.running =~= Seq::<MacroView>::empty());
        }
        r
    }

    /// The layer each physical key of `profile` has under `tags`.
    fn select_key_layers(profile: &KeyboardProfile, tags: &TagList) -> (r: Vec<Option<usize>>)
        ensures
            r@.len() == profile.keys@.len(),
            forall|i: int|
                0 <= i < r@.len() ==> sel_int(#[trigger] r@[i])
                    == profile.keys@[i].layers.spec_active_index(tags@),
            forall|i: int|
                0 <= i < r@.len() ==> (#[trigger] r@[i] matches Some(k) ==> k
                    < profile.keys@[i].layers.layers@.len()),
    {
        let mut r: Vec<Option<usize>> = Vec::new();
        let mut i: usize = 0;
        while i < profile.keys.len()
            invariant
                i <= profile.keys@.len(),
                r@.len() == i,
                forall|j: int|
                    0 <= j < i ==> sel_int(#[trigger] r@[j])
                        == profile.keys@[j].layers.spec_active_index(tags@),
                forall|j: int|
                    0 <= j < i ==> (#[trigger] r@[j] matches Some(k) ==> k
                        < profile.keys@[j].layers.layers@.len()),
            decreases profile.keys.len() - i,
        {
            r.push(profile.keys[i].layers.active_index(tags));
            i = i + 1;
        }
        r
    }

    /// The layer each virtual key of `profile` has under `tags`.
    fn select_virtual_layers(profile: &KeyboardProfile, tags: &TagList) -> (r: Vec<
        Option<usize>,
    >)
        ensures
            r@.len() == profile.virtual_keys@.len(),
            forall|i: int|
                0 <= i < r@.len() ==> sel_int(#[trigger] r@[i])
                    == profile.virtual_keys@[i].layers.spec_active_index(tags@),
            forall|i: int|
                0 <= i < r@.len() ==> (#[trigger] r@[i] matches Some(k) ==> k
                    < profile.virtual_keys@[i].layers.layers@.len()),
    {
        let mut r: Vec<Option<usize>> = Vec::new();
        let mut i: usize = 0;
        while i < profile.virtual_keys.len()
            invariant
                i <= profile.virtual_keys@.len(),
                r@.len() == i,
                forall|j: int|
                    0 <= j < i ==> sel_int(#[trigger] r@[j])
                        == profile.virtual_keys@[j].layers.spec_active_index(tags@),
                forall|j: int|
                    0 <= j < i ==> (#[trigger] r@[j] matches Some(k) ==> k
                        < profile.virtual_keys@[j].layers.layers@.len()),
            decreases profile.virtual_keys.len() - i,
        {
            r.push(profile.virtual_keys[i].layers.active_index(tags));
            i = i + 1;
        }
        r
    }

    /// Presses physical key `key_id`: the first key of the profile with that identity starts
    /// the macros of its current layer.
    pub fn press_key(&mut self, key_id: KeyId)
        requires
            old(self).wf(),
        ensures
            final(self).wf(),
            final(self).spec_profile() == old(self).spec_profile(),
            final(self)@ == match find_key(old(self).spec_profile().keys@, key_id, 0) {
                Some(i) => {
                    let p = old(self).spec_profile();
                    let layer = p.keys@[i].layers.spec_active_layer(old(self)@.tags);
                    EngineView {
                        running: press_running(
                            old(self)@.running,
                            started(
                                p.macros@,
                                layer.macros@,
                                MacroSource { key: MacroSourceKey::PhysicalKey(key_id), layer: layer.id },
                            ),
                        ),
                        ..old(self)@
                    }
                },
                None => old(self)@,
            },
    {
        let mut i: usize = 0;
        while i < self.profile.keys.len()
            invariant
                i <= self.profile.keys@.len(),
                *self == *old(self),
                self.wf(),
                find_key(self.profile.keys@, key_id, 0) == find_key(
                    self.profile.keys@,
                    key_id,
                    i as int,
                ),
            decreases self.profile.keys.len() - i,
        {
            if self.profile.keys[i].id == key_id {
                proof {
                    assert(self.layers_cached(self.tags@));
                    assert(sel_int(self.key_layers@[i as int]) == self.profile.keys@[i as int].layers.spec_active_index(self.tags@));
                    lemma_active_index_valid(self.profile.keys@[i as int].layers, self.tags@, 0);
                }
                let layer = self.profile.keys[i].layers.layer(self.key_layers[i]);
                let source = MacroSource { key: MacroSourceKey::PhysicalKey(key_id), layer: layer.id };
                let macros = get_macros_from_key(&self.profile.macros, layer, source);
                run_macros(&mut self.running, macros);
                return;
            }
            i = i + 1;
        }
    }

    /// Releases physical key `key_id`: every instance it started is stopped.
    pub fn release_key(&mut self, key_id: KeyId)
        requires
            old(self).wf(),
        ensures
            final(self).wf(),
            final(self).spec_profile() == old(self).spec_profile(),
            final(self)@ == (EngineView {
                running: release_running(old(self)@.running, MacroSourceKey::PhysicalKey(key_id)),
                ..old(self)@
            }),
    {
        release_key_source(&mut self.running, MacroSourceKey::PhysicalKey(key_id));
    }

    /// Whether the key that started an instance from `source` moved to another layer than
    /// the one of `source`, from the cached layers to `key_layers` and `virtual_layers`.
    fn moved(
        &self,
        key_layers: &Vec<Option<usize>>,
        virtual_layers: &Vec<Option<usize>>,
        source: MacroSource,
        Ghost(old_v): Ghost<(Seq<Seq<char>>, Seq<Seq<char>>)>,
    ) -> (r: bool)
        requires
            self.layers_cached(old_v),
            key_layers@.len() == self.profile.keys@.len(),
            virtual_layers@.len() == self.profile.virtual_keys@.len(),
            forall|i: int|
                0 <= i < key_layers@.len() ==> sel_int(#[trigger] key_layers@[i])
                    == self.profile.keys@[i].layers.spec_active_index(self.tags@),
            forall|i: int|
                0 <= i < virtual_layers@.len() ==> sel_int(#[trigger] virtual_layers@[i])
                    == self.profile.virtual_keys@[i].layers.spec_active_index(self.tags@),
        ensures
            forall|m: MacroView|
                m.source == source ==> r == source_moved(self.profile, old_v, self.tags@, m),
    {
        proof {
            assert forall|i: int| 0 <= i < self.profile.keys@.len() implies (#[trigger] key_layers@[i] matches Some(k) ==> k < self.profile.keys@[i].layers.layers@.len()) && (self.key_layers@[i] matches Some(k) ==> k < self.profile.keys@[i].layers.layers@.len()) by {
                lemma_active_index_valid(self.profile.keys@[i].layers, self.tags@, 0);
                lemma_active_index_valid(self.profile.keys@[i].layers, old_v, 0);
            }
        }
        let key = source.key;
        match key {
            MacroSourceKey::PhysicalKey(id) => {
                proof {
                    assert(source.key == MacroSourceKey::PhysicalKey(id));
                }
                let mut j: usize = 0;
                while j < self.profile.keys.len()
                    invariant
                        j <= self.profile.keys@.len(),
                        source.key == MacroSourceKey::PhysicalKey(id),
                        key_layers@.len() == self.profile.keys@.len(),
                        self.key_layers@.len() == self.profile.keys@.len(),
                        self.layers_cached(old_v),
                        forall|i: int|
                            0 <= i < key_layers@.len() ==> sel_int(#[trigger] key_layers@[i])
                                == self.profile.keys@[i].layers.spec_active_index(self.tags@),
                        forall|i: int| 0 <= i < self.profile.keys@.len() ==> (#[trigger] key_layers@[i] matches Some(k) ==> k < self.profile.keys@[i].layers.layers@.len()) && (self.key_layers@[i] matches Some(k) ==> k < self.profile.keys@[i].layers.layers@.len()),
                        forall|i: int|
                            0 <= i < j ==> !(#[trigger] self.profile.keys@[i].id == id
                                && layer_moved(
                                self.profile.keys@[i].layers,
                                old_v,
                                self.tags@,
                                source.layer,
                            )),
                    decreases self.profile.keys.len() - j,
                {
                    let dl = &self.profile.keys[j].layers;
                    let new_id = dl.layer(key_layers[j]).id;
                    let old_id = dl.layer(self.key_layers[j]).id;
                    proof {
                        assert(sel_int(key_layers@[j as int]) == dl.spec_active_index(self.tags@));
                        assert(sel_int(self.key_layers@[j as int]) == dl.spec_active_index(old_v));
                        assert(new_id == dl.spec_active_layer(self.tags@).id);
                        assert(old_id == dl.spec_active_layer(old_v).id);
                    }
                    if self.profile.keys[j].id == id && new_id != old_id && source.layer != new_id {
                        proof {
                            assert(layer_moved(*dl, old_v, self.tags@, source.layer));
                            assert(self.profile.keys@[j as int].id == id);
                            assert forall|m: MacroView| m.source == source implies source_moved(
                                self.profile,
                                old_v,
                                self.tags@,
                                m,
                            ) by {
                                assert(m.source.key == MacroSourceKey::PhysicalKey(id));
                                assert(0 <= j < self.profile.keys@.len() && self.profile.keys@[j as int].id == id
                                    && layer_moved(self.profile.keys@[j as int].layers, old_v, self.tags@, m.source.layer));
                            }
                        }
                        return true;
                    }
                    j = j + 1;
                }
                false
            },
            MacroSourceKey::VirtualKey(i) => {
                if i < self.profile.virtual_keys.len() {
                    proof {
                        lemma_active_index_valid(self.profile.virtual_keys@[i as int].layers, self.tags@, 0);
                        lemma_active_index_valid(self.profile.virtual_keys@[i as int].layers, old_v, 0);
                    }
                    let dl = &self.profile.virtual_keys[i].layers;
                    let new_id = dl.layer(virtual_layers[i]).id;
                    let old_id = dl.layer(self.virtual_layers[i]).id;
                    proof {
                        assert(sel_int(virtual_layers@[i as int]) == dl.spec_active_index(self.tags@));
                        assert(sel_int(self.virtual_layers@[i as int]) == dl.spec_active_index(old_v));
                        assert(new_id == dl.spec_active_layer(self.tags@).id);
                        assert(old_id == dl.spec_active_layer(old_v).id);
                    }
                    new_id != old_id && source.layer != new_id
                } else {
                    false
                }
            },
        }
    }

    /// Brings every key's layer up to date with the tags, which were `old_v`; stops the
    /// instances whose key moved to another layer.
    fn update_layers(&mut self, Ghost(old_v): Ghost<(Seq<Seq<char>>, Seq<Seq<char>>)>)
        requires
            old(self).layers_cached(old_v),
            old(self).virtual_pressed@.len() == old(self).profile.virtual_keys@.len(),
            forall|i: int| 0 <= i < old(self).running@.len() ==> (#[trigger] old(self).running@[i]).wf(),
        ensures
            final(self).wf(),
            final(self).profile == old(self).profile,
            final(self).tags == old(self).tags,
            final(self).virtual_pressed == old(self).virtual_pressed,
            final(self)@.running == old(self)@.running.map_values(
                |m: MacroView|
                    if source_moved(old(self).profile, old_v, old(self).tags@, m) {
                        stopped(m)
                    } else {
                        m
                    },
            ),
    {
        let key_layers = Self::select_key_layers(&self.profile, &self.tags);
        let virtual_layers = Self::select_virtual_layers(&self.profile, &self.tags);
        let mut i: usize = 0;
        while i < self.running.len()
            invariant
                i <= self.running@.len(),
                self.running@.len() == old(self).running@.len(),
                self.profile == old(self).profile,
                self.tags == old(self).tags,
                self.key_layers == old(self).key_layers,
                self.virtual_layers == old(self).virtual_layers,
                self.virtual_pressed == old(self).virtual_pressed,
                self.layers_cached(old_v),
                key_layers@.len() == self.profile.keys@.len(),
                virtual_layers@.len() == self.profile.virtual_keys@.len(),
                forall|k: int|
                    0 <= k < key_layers@.len() ==> sel_int(#[trigger] key_layers@[k])
                        == self.profile.keys@[k].layers.spec_active_index(self.tags@),
                forall|k: int|
                    0 <= k < virtual_layers@.len() ==> sel_int(#[trigger] virtual_layers@[k])
                        == self.profile.virtual_keys@[k].layers.spec_active_index(self.tags@),
                forall|j: int| 0 <= j < self.running@.len() ==> (#[trigger] self.running@[j]).wf(),
                forall|j: int|
                    0 <= j < self.running@.len() ==> (#[trigger] self.running@[j])@ == if j < i
                        && source_moved(self.profile, old_v, self.tags@, old(self).running@[j]@) {
                        stopped(old(self).running@[j]@)
                    } else {
                        old(self).running@[j]@
                    },
            decreases self.running.len() - i,
        {
            let source = self.running[i].source();
            if self.moved(&key_layers, &virtual_layers, source, Ghost(old_v)) {
                self.running[i].stop();
            }
            i = i + 1;
        }
        self.key_layers = key_layers;
        self.virtual_layers = virtual_layers;
        proof {
            assert(self@.running =~= old(self)@.running.map_values(
                |m: MacroView|
                    if source_moved(old(self).profile, old_v, old(self).tags@, m) {
                        stopped(m)
                    } else {
                        m
                    },
            ));
        }
    }

    pub fn add_internal_tag(&mut self, tag: LayerTag)
        requires
            old(self).wf(),
        ensures
            final(self).wf(),
            final(self).spec_profile() == old(self).spec_profile(),
            final(self)@ == with_tags(
                old(self).spec_profile(),
                old(self)@,
                (old(self)@.tags.0.push(tag@), old(self)@.tags.1),
            ),
    {
        let ghost old_v = self.tags@;
        self.tags.add_internal(tag);
        self.update_layers(Ghost(old_v));
    }

    /// Takes out the first occurrence of `tag` among the internal tags.
    pub fn remove_internal_tag(&mut self, tag: LayerTag)
        requires
            old(self).wf(),
        ensures
            final(self).wf(),
            final(self).spec_profile() == old(self).spec_profile(),
            final(self)@ == with_tags(
                old(self).spec_profile(),
                old(self)@,
                (remove_first(old(self)@.tags.0, tag@), old(self)@.tags.1),
            ),
    {
        let ghost old_v = self.tags@;
        self.tags.remove_internal(tag);
        self.update_layers(Ghost(old_v));
    }


    /// Lets `elapsed` pass for every running instance, in order, appending what they play to
    /// `events`; drops the instances that finished; then plays the layer events among them on
    /// the internal tags, in order.
    pub fn tick(&mut self, elapsed: Duration, events: &mut Vec<ActionEvent>)
        requires
            old(self).wf(),
        ensures
            final(self).wf(),
            final(self).spec_profile() == old(self).spec_profile(),
            exists|mid: Seq<MacroView>, parts: Seq<Seq<ActionEvent>>|
                #[trigger] ticked_all(old(self)@.running, elapsed.micros, mid, parts)
                    && final(events)@ == old(events)@ + concat_all(parts) && final(self)@
                    == apply_layer_events(
                    old(self).spec_profile(),
                    EngineView { running: unfinished(mid), ..old(self)@ },
                    concat_all(parts),
                ),
    {
        let ghost v0 = self@;
        let ghost e0 = events@;
        let start = events.len();
        let ghost mut parts: Seq<Seq<ActionEvent>> = Seq::empty();
        let mut i: usize = 0;
        while i < self.running.len()
            invariant
                i <= self.running@.len(),
                self.running@.len() == old(self).running@.len(),
                self.profile == old(self).profile,
                self.tags == old(self).tags,
                self.key_layers == old(self).key_layers,
                self.virtual_layers == old(self).virtual_layers,
                self.virtual_pressed == old(self).virtual_pressed,
                v0 == old(self)@,
                e0 == old(events)@,
                start == e0.len(),
                forall|j: int| 0 <= j < self.running@.len() ==> (#[trigger] self.running@[j]).wf(),
                parts.len() == i,
                forall|j: int|
                    0 <= j < i ==> ticks_to(
                        v0.running[j],
                        elapsed.micros,
                        self.running@[j]@,
                        #[trigger] parts[j],
                    ),
                forall|j: int| i <= j < self.running@.len() ==> #[trigger] self.running@[j]@ == v0.running[j],
                events@ == e0 + concat_all(parts),
            decreases self.running.len() - i,
        {
            let ghost before = events@;
            self.running[i].tick(elapsed, events);
            proof {
                let part = events@.skip(before.len() as int);
                assert(events@.take(before.len() as int) == before);
                assert(events@ =~= events@.take(before.len() as int) + part);
                let old_parts = parts;
                parts = parts.push(part);
                assert(parts.drop_last() =~= old_parts);
                assert(parts[i as int] == part);
            }
            i = i + 1;
        }
        let ghost mid = views(self.running@);
        proof {
            assert forall|j: int| 0 <= j < v0.running.len() implies ticks_to(
                v0.running[j],
                elapsed.micros,
                mid[j],
                parts[j],
            ) by {
                assert(mid[j] == self.running@[j]@);
            }
            assert(ticked_all(v0.running, elapsed.micros, mid, parts));
        }
        let mut kept: Vec<MacroState> = Vec::new();
        let ghost mut taken: int = 0;
        while self.running.len() > 0
            invariant
                0 <= taken <= mid.len(),
                views(self.running@) == mid.skip(taken),
                views(kept@) == unfinished(mid.take(taken)),
                forall|j: int| 0 <= j < self.running@.len() ==> (#[trigger] self.running@[j]).wf(),
                forall|j: int| 0 <= j < kept@.len() ==> (#[trigger] kept@[j]).wf(),
                self.profile == old(self).profile,
                self.tags == old(self).tags,
                self.key_layers == old(self).key_layers,
                self.virtual_layers == old(self).virtual_layers,
                self.virtual_pressed == old(self).virtual_pressed,
            decreases self.running.len(),
        {
            let ghost rest = self.running@;
            proof {
                assert(views(rest).len() == rest.len());
                assert(taken < mid.len());
            }
            let m = self.running.remove(0);
            proof {
                assert(m == rest[0]);
                assert(views(rest)[0] == rest[0]@);
                assert(mid.skip(taken)[0] == mid[taken]);
                assert(mid.take(taken + 1).drop_last() =~= mid.take(taken));
                assert(mid[taken] == m@) by {
                    assert(views(rest)[0] == mid.skip(taken)[0]);
                }
                assert(self.running@ =~= rest.skip(1));
                assert forall|k: int| 0 <= k < self.running@.len() implies views(self.running@)[k]
                    == mid.skip(taken + 1)[k] by {
                    assert(self.running@[k] == rest[k + 1]);
                    assert(views(rest)[k + 1] == mid.skip(taken)[k + 1]);
                }
                assert(views(self.running@) =~= mid.skip(taken + 1));
            }
            if !m.is_finished() {
                let ghost k0 = kept@;
                kept.push(m);
                proof {
                    assert(views(kept@) =~= views(k0).push(m@));
                }
            }
            proof {
                taken = taken + 1;
            }
        }
        self.running = kept;
        proof {
            assert(mid.take(mid.len() as int) =~= mid);
            assert(self@ == EngineView { running: unfinished(mid), ..v0 });
        }
        let ghost v_mid = self@;

        let mut j: usize = start;
        while j < events.len()
            invariant
                start <= j <= events@.len(),
                start == e0.len(),
                events@ == e0 + concat_all(parts),
                self.wf(),
                self.profile == old(self).profile,
                self@ == apply_layer_events(self.profile, v_mid, events@.subrange(start as int, j as int)),
            decreases events.len() - j,
        {
            proof {
                assert(events@.subrange(start as int, j + 1).drop_last() =~= events@.subrange(
                    start as int,
                    j as int,
                ));
            }
            match &events[j] {
                ActionEvent::Layer(LayerEvent::Add(t)) => {
                    let tag = t.duplicate();
                    self.add_internal_tag(tag);
                },
                ActionEvent::Layer(LayerEvent::Clear(t)) => {
                    let tag = t.duplicate();
                    self.remove_internal_tag(tag);
                },
                _ => {},
            }
            j = j + 1;
        }
        proof {
            assert(j == events@.len());
            let c = concat_all(parts);
            assert(events@ == e0 + c);
            assert forall|k: int| 0 <= k < c.len() implies events@.subrange(start as int, j as int)[k] == c[k] by {
                assert(events@[start + k] == (e0 + c)[e0.len() + k]);
            }
            assert(events@.subrange(start as int, j as int) =~= c);
        }
    }

    /// Compares each virtual key with its bit in `bits` (key 0 is the most significant bit of
    /// byte 0), in order: a change to on presses the key, a change to off releases it.
    pub fn set_virtual_key_state(&mut self, bits: &[u8])
        requires
            old(self).wf(),
        ensures
            final(self).wf(),
            final(self).spec_profile() == old(self).spec_profile(),
            final(self)@ == vk_fold(
                old(self).spec_profile(),
                old(self)@,
                bits@,
                if old(self).spec_profile().virtual_keys@.len() <= bits@.len() * 8 {
                    old(self).spec_profile().virtual_keys@.len() as int
                } else {
                    (bits@.len() * 8) as int
                },
            ),
    {
        let vk_count = self.virtual_keys_len();
        let num_keys = if bits.len() >= vk_count / 8 + 1 {
            vk_count
        } else {
            bits.len() * 8
        };
        let ghost v0 = self@;
        let mut i: usize = 0;
        while i < num_keys
            invariant
                i <= num_keys,
                num_keys <= self.profile.virtual_keys@.len(),
                num_keys <= bits@.len() * 8,
                num_keys == if self.profile.virtual_keys@.len() <= bits@.len() * 8 {
                    self.profile.virtual_keys@.len() as int
                } else {
                    (bits@.len() * 8) as int
                },
                self.wf(),
                self.profile == old(self).profile,
                v0 == old(self)@,
                self@ == vk_fold(self.profile, v0, bits@, i as int),
            decreases num_keys - i,
        {
            let idx = to_bitset_index(i, num_keys);
            match idx {
                Some(b) => {
                    proof {
                        lemma_bitset_index(i as int);
                    }
                    let state = bit_test(bits, b);
                    proof {
                        assert(state == bit_of(bits@, i as int));
                    }
                    if self.virtual_pressed[i] != state {
                        self.virtual_pressed.set(i, state);
                        if state {
                            proof {
                                lemma_active_index_valid(self.profile.virtual_keys@[i as int].layers, self.tags@, 0);
                            }
                            let layer = self.profile.virtual_keys[i].layers.layer(self.virtual_layers[i]);
                            let source = MacroSource { key: MacroSourceKey::VirtualKey(i), layer: layer.id };
                            let macros = get_macros_from_key(&self.profile.macros, layer, source);
                            run_macros(&mut self.running, macros);
                        } else {
                            release_key_source(&mut self.running, MacroSourceKey::VirtualKey(i));
                        }
                    }
                },
                None => {},
            }
            i = i + 1;
        }
    }

    fn virtual_keys_len(&self) -> (r: usize)
        ensures
            r == self.profile.virtual_keys@.len(),
    {
        self.profile.virtual_keys.len()
    }

    /// The number of running instances.
    pub fn running_len(&self) -> (r: usize)
        ensures
            r == self@.running.len(),
    {
        self.running.len()
    }

    /// The running instance at position `i`, in order of start.
    pub fn running_at(&self, i: usize) -> (r: &MacroState)
        requires
            i < self@.running.len(),
        ensures
            r@ == self@.running[i as int],
    {
        &self.running[i]
    }

    /// An engine over `profile` that keeps this engine's external tags: internal tags and
    /// running macros are dropped.
    pub fn with_new_profile(self, profile: KeyboardProfile) -> (r: KeyboardState)
        requires
            self.wf(),
        ensures
            r.wf(),
            r.spec_profile() == profile,
            r@.running.len() == 0,
            r@.pressed == Seq::new(profile.virtual_keys@.len(), |i: int| false),
            r@.tags.0.len() == 0,
            r@.tags.1 == self@.tags.1,
    {
        let external = duplicate_tags(self.get_external_tags());
        let mut r = KeyboardState::from(profile);
        r.set_external_tags(external);
        r
    }

    pub fn get_external_tags(&self) -> (r: &[LayerTag])
        ensures
            tag_views(r@) == self@.tags.1,
    {
        self.tags.external().as_slice()
    }

    /// Replaces the external tags with `tags`.
    pub fn set_external_tags(&mut self, tags: Vec<LayerTag>)
        requires
            old(self).wf(),
        ensures
            final(self).wf(),
            final(self).spec_profile() == old(self).spec_profile(),
            final(self)@ == with_tags(
                old(self).spec_profile(),
                old(self)@,
                (old(self)@.tags.0, tag_views(tags@)),
            ),
    {
        let ghost old_v = self.tags@;
        self.tags.set_external(tags);
        self.update_layers(Ghost(old_v));
    }
}



/// The events of `parts`, one after the other.
pub open spec fn concat_all(parts: Seq<Seq<ActionEvent>>) -> Seq<ActionEvent>
    decreases parts.len(),
{
    if parts.len() == 0 {
        Seq::empty()
    } else {
        concat_all(parts.drop_last()) + parts.last()
    }
}

/// The instances of `s` that have not finished, in order.
pub open spec fn unfinished(s: Seq<MacroView>) -> Seq<MacroView>
    decreases s.len(),
{
    if s.len() == 0 {
        Seq::empty()
    } else if s.last().current != CurrentSequence::Finished {
        unfinished(s.drop_last()).push(s.last())
    } else {
        unfinished(s.drop_last())
    }
}

/// Each instance of `before` ticked `elapsed` to the one of `after` at its position, playing
/// the events of `parts` at that position.
pub open spec fn ticked_all(
    before: Seq<MacroView>,
    elapsed: u64,
    after: Seq<MacroView>,
    parts: Seq<Seq<ActionEvent>>,
) -> bool {
    &&& after.len() == before.len()
    &&& parts.len() == before.len()
    &&& forall|i: int| 0 <= i < before.len() ==> ticks_to(before[i], elapsed, after[i], parts[i])
}

/// `v` once event `e` has played: a layer event sets or clears an internal tag.
pub open spec fn layer_event_step(p: KeyboardProfile, v: EngineView, e: ActionEvent) -> EngineView {
    match e {
        ActionEvent::Layer(LayerEvent::Add(t)) => with_tags(p, v, (v.tags.0.push(t@), v.tags.1)),
        ActionEvent::Layer(LayerEvent::Clear(t)) => with_tags(
            p,
            v,
            (remove_first(v.tags.0, t@), v.tags.1),
        ),
        _ => v,
    }
}

/// `v` once the events `evs` have played, in order.
pub open spec fn apply_layer_events(p: KeyboardProfile, v: EngineView, evs: Seq<ActionEvent>) -> EngineView
    decreases evs.len(),
{
    if evs.len() == 0 {
        v
    } else {
        layer_event_step(p, apply_layer_events(p, v, evs.drop_last()), evs.last())
    }
}

/// Whether virtual key `i` is on in `bits`: key 0 is the most significant bit of byte 0.
pub open spec fn bit_of(bits: Seq<u8>, i: int) -> bool {
    bits[i / 8] & (1u8 << ((7 - i % 8) as u8)) != 0
}

/// `v` once virtual key `i` is seen in state `b`: a change to on presses it, a change to off
/// releases it.
pub open spec fn vk_step(p: KeyboardProfile, v: EngineView, i: int, b: bool) -> EngineView {
    if v.pressed[i] == b {
        v
    } else {
        let w = EngineView { pressed: v.pressed.update(i, b), ..v };
        if b {
            let layer = p.virtual_keys@[i].layers.spec_active_layer(v.tags);
            EngineView {
                running: press_running(
                    v.running,
                    started(
                        p.macros@,
                        layer.macros@,
                        MacroSource { key: MacroSourceKey::VirtualKey(i as usize), layer: layer.id },
                    ),
                ),
                ..w
            }
        } else {
            EngineView {
                running: release_running(v.running, MacroSourceKey::VirtualKey(i as usize)),
                ..w
            }
        }
    }
}

/// `v` once virtual keys `0 .. n` have been compared with `bits`, in order.
pub open spec fn vk_fold(p: KeyboardProfile, v: EngineView, bits: Seq<u8>, n: int) -> EngineView
    decreases n,
{
    if n <= 0 {
        v
    } else {
        vk_step(p, vk_fold(p, v, bits, n - 1), n - 1, bit_of(bits, n - 1))
    }
}

/// Relies on bitset_core's `BitSet::bit_test` for byte slices: bit `i` is bit `i % 8`, counted
/// from the least significant, of byte `i / 8`.
#[verifier::external_body]
fn bit_test(bits: &[u8], i: usize) -> (r: bool)
    requires
        i / 8 < bits@.len(),
    ensures
        r == (bits@[i as int / 8] & (1u8 << ((i % 8) as u8)) != 0),
{
    bitset_core::BitSet::bit_test(bits, i)
}

/// The position, in bitset order, of virtual key `vk_index` among `total_bits` bits: keys run
/// from the most significant bit of each byte, bitset positions from the least significant.
pub fn to_bitset_index(vk_index: usize, total_bits: usize) -> (r: Option<usize>)
    ensures
        r == if vk_index < total_bits {
            Some(((vk_index / 8) * 8 + 7 - vk_index % 8) as usize)
        } else {
            None::<usize>
        },
{
    if vk_index >= total_bits {
        return None;
    }
    let byte = vk_index / 8;
    let bit = 7 - (vk_index % 8);
    Some(byte * 8 + bit)
}

proof fn lemma_bitset_index(i: int)
    requires
        i >= 0,
    ensures
        ((i / 8) * 8 + 7 - i % 8) / 8 == i / 8,
        ((i / 8) * 8 + 7 - i % 8) % 8 == 7 - i % 8,
{
    let j = (i / 8) * 8 + 7 - i % 8;
    assert(0 <= 7 - i % 8 < 8);
    assert(j == (i / 8) * 8 + (7 - i % 8));
    vstd::arithmetic::div_mod::lemma_fundamental_div_mod_converse(j, 8, i / 8, 7 - i % 8);
}

/// A copy of a list of tags.
fn duplicate_tags(v: &[LayerTag]) -> (r: Vec<LayerTag>)
    ensures
        tag_views(r@) == tag_views(v@),
{
    let mut r: Vec<LayerTag> = Vec::new();
    let mut i: usize = 0;
    while i < v.len()
        invariant
            i <= v@.len(),
            tag_views(r@) == tag_views(v@.take(i as int)),
        decreases v.len() - i,
    {
        let ghost before = r@;
        r.push(v[i].duplicate());
        proof {
            assert(r@ =~= before.push(r@.last()));
            assert(v@.take(i + 1) =~= v@.take(i as int).push(v@[i as int]));
            assert(tag_views(r@) =~= tag_views(before).push(r@.last()@));
            assert(tag_views(v@.take(i + 1)) =~= tag_views(v@.take(i as int)).push(v@[i as int]@));
        }
        i = i + 1;
    }
    proof {
        assert(v@.take(i as int) =~= v@);
    }
    r
}

/// Starts an instance for each slot of `layer` that names a macro of `macros`, from `source`.
fn get_macros_from_key(macros: &Vec<Macro>, layer: &DeviceKeyLayer, source: MacroSource) -> (r: Vec<
    MacroState,
>)
    ensures
        views(r@) == started(macros@, layer.macros@, source),
        forall|i: int| 0 <= i < r@.len() ==> (#[trigger] r@[i]).wf(),
{
    let mut r: Vec<MacroState> = Vec::new();
    let mut j: usize = 0;
    while j < layer.macros.len()
        invariant
            j <= layer.macros@.len(),
            views(r@) == started(macros@, layer.macros@.take(j as int), source),
            forall|i: int| 0 <= i < r@.len() ==> (#[trigger] r@[i]).wf(),
        decreases layer.macros.len() - j,
    {
        proof {
            assert(layer.macros@.take(j + 1).drop_last() =~= layer.macros@.take(j as int));
        }
        let idx = layer.macros[j].get_index();
        if idx < macros.len() {
            let m = MacroState::from(&macros[idx], source);
            let ghost before = r@;
            r.push(m);
            proof {
                assert(views(r@) =~= views(before).push(r@.last()@));
            }
        }
        j = j + 1;
    }
    proof {
        assert(layer.macros@.take(j as int) =~= layer.macros@);
    }
    r
}

/// The channels that the instances `news` cut, together.
fn channels_to_cut(news: &Vec<MacroState>) -> (r: Vec<Channel>)
    ensures
        r@ == cut_set(views(news@)),
{
    let mut r: Vec<Channel> = Vec::new();
    let mut j: usize = 0;
    while j < news.len()
        invariant
            j <= news@.len(),
            r@ == cut_set(views(news@).take(j as int)),
        decreases news.len() - j,
    {
        proof {
            assert(views(news@).take(j + 1).drop_last() =~= views(news@).take(j as int));
        }
        let cuts = news[j].cut_channels();
        let ghost before = r@;
        let mut k: usize = 0;
        while k < cuts.len()
            invariant
                k <= cuts@.len(),
                r@ == before + cuts@.take(k as int),
            decreases cuts.len() - k,
        {
            r.push(cuts[k]);
            proof {
                assert(cuts@.take(k + 1) =~= cuts@.take(k as int).push(cuts@[k as int]));
            }
            k = k + 1;
        }
        proof {
            assert(cuts@.take(k as int) =~= cuts@);
        }
        j = j + 1;
    }
    proof {
        assert(views(news@).take(j as int) =~= views(news@));
    }
    r
}

fn channel_listed(channels: &Vec<Channel>, c: Channel) -> (r: bool)
    ensures
        r == channels@.contains(c),
{
    let mut k: usize = 0;
    while k < channels.len()
        invariant
            k <= channels@.len(),
            forall|j: int| 0 <= j < k ==> channels@[j] != c,
        decreases channels.len() - k,
    {
        if channels[k] == c {
            return true;
        }
        k = k + 1;
    }
    false
}

/// Stops every instance of `running` that plays on one of `channels`.
fn cut_channels(running: &mut Vec<MacroState>, channels: &Vec<Channel>)
    requires
        forall|i: int| 0 <= i < old(running)@.len() ==> (#[trigger] old(running)@[i]).wf(),
    ensures
        forall|i: int| 0 <= i < final(running)@.len() ==> (#[trigger] final(running)@[i]).wf(),
        views(final(running)@) == views(old(running)@).map_values(
            |m: MacroView|
                if is_cut(m, channels@) {
                    stopped(m)
                } else {
                    m
                },
        ),
{
    let mut i: usize = 0;
    while i < running.len()
        invariant
            i <= running@.len(),
            running@.len() == old(running)@.len(),
            forall|j: int| 0 <= j < running@.len() ==> (#[trigger] running@[j]).wf(),
            forall|j: int|
                0 <= j < running@.len() ==> (#[trigger] running@[j])@ == if j < i && is_cut(
                    old(running)@[j]@,
                    channels@,
                ) {
                    stopped(old(running)@[j]@)
                } else {
                    old(running)@[j]@
                },
        decreases running.len() - i,
    {
        let cut = match running[i].play_channel() {
            Some(c) => channel_listed(channels, c),
            None => false,
        };
        if cut {
            running[i].stop();
        }
        i = i + 1;
    }
    proof {
        assert(views(running@) =~= views(old(running)@).map_values(
            |m: MacroView|
                if is_cut(m, channels@) {
                    stopped(m)
                } else {
                    m
                },
        ));
    }
}

/// Starts the instances `macros`, after stopping the running ones on channels they cut.
fn run_macros(running: &mut Vec<MacroState>, macros: Vec<MacroState>)
    requires
        forall|i: int| 0 <= i < old(running)@.len() ==> (#[trigger] old(running)@[i]).wf(),
        forall|i: int| 0 <= i < macros@.len() ==> (#[trigger] macros@[i]).wf(),
    ensures
        forall|i: int| 0 <= i < final(running)@.len() ==> (#[trigger] final(running)@[i]).wf(),
        views(final(running)@) == press_running(views(old(running)@), views(macros@)),
{
    let channels = channels_to_cut(&macros);
    cut_channels(running, &channels);
    let mut news = macros;
    let ghost mid = running@;
    running.append(&mut news);
    proof {
        assert(views(running@) =~= views(mid) + views(macros@));
        assert forall|i: int| 0 <= i < running@.len() implies (#[trigger] running@[i]).wf() by {
            if i >= mid.len() {
                assert(running@[i] == macros@[i - mid.len()]);
            }
        }
    }
}

/// Stops every instance of `running` started by `key`.
fn release_key_source(running: &mut Vec<MacroState>, key: MacroSourceKey)
    requires
        forall|i: int| 0 <= i < old(running)@.len() ==> (#[trigger] old(running)@[i]).wf(),
    ensures
        forall|i: int| 0 <= i < final(running)@.len() ==> (#[trigger] final(running)@[i]).wf(),
        views(final(running)@) == release_running(views(old(running)@), key),
{
    let mut i: usize = 0;
    while i < running.len()
        invariant
            i <= running@.len(),
            running@.len() == old(running)@.len(),
            forall|j: int| 0 <= j < running@.len() ==> (#[trigger] running@[j]).wf(),
            forall|j: int|
                0 <= j < running@.len() ==> (#[trigger] running@[j])@ == if j < i
                    && old(running)@[j]@.source.key == key {
                    stopped(old(running)@[j]@)
                } else {
                    old(running)@[j]@
                },
        decreases running.len() - i,
    {
        if running[i].source().key == key {
            running[i].stop();
        }
        i = i + 1;
    }
    proof {
        assert(views(running@) =~= release_running(views(old(running)@), key));
    }
}

proof fn lemma_active_index_valid(dl: DeviceLayers, v: (Seq<Seq<char>>, Seq<Seq<char>>), i: int)
    requires
        0 <= i,
    ensures
        active_index_from(dl.layers@, v, i) matches Some(k) ==> i <= k < dl.layers@.len(),
    decreases dl.layers@.len() - i,
{
    if i < dl.layers@.len() {
        lemma_active_index_valid(dl, v, i + 1);
    }
}

} // verus!
