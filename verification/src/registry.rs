//! The registry of generated subclasses.
//!
//! For each pair of a native base class and a behaviour type the host runtime
//! is asked once to declare a subclass; every later request for the same pair
//! is answered from the registry.

use vstd::prelude::*;
use vstd::string::StringExecFns;

verus! {

/// What the host runtime hands back for a declared class. The registry
/// never looks inside it.
#[derive(Clone, Copy, Debug, PartialEq, Eq, Structural)]
pub struct ClassToken {
    pub id: usize,
}

/// An extra field that a generated subclass gives each of its instances.
#[derive(Clone, Copy, Debug, PartialEq, Eq, Structural)]
pub enum Ivar {
    /// The callback slot: the address of a text view's behaviour.
    TextViewDelegatePtr,
    /// The callback slot: the address of a list view's behaviour.
    ListViewDelegatePtr,
    /// The colour the view paints its layer with.
    BackgroundColor,
}

/// A native callback that a generated subclass answers with a trampoline.
#[derive(Clone, Copy, Debug, PartialEq, Eq, Structural)]
pub enum Callback {
    /// The view's layer is about to be drawn.
    UpdateLayer,
    /// The text of the view has changed.
    TextDidChange,
    /// The toolkit asks whether editing may begin.
    TextShouldBeginEditing,
}

impl Ivar {
    pub open spec fn spec_name(self) -> Seq<char> {
        match self {
            Ivar::TextViewDelegatePtr => "rstViewDelegatePtr"@,
            Ivar::ListViewDelegatePtr => "rstListViewDelegatePtr"@,
            Ivar::BackgroundColor => "cacaoBackgroundColor"@,
        }
    }

    /// Whether the field is a callback slot.
    pub open spec fn spec_is_callback_slot(self) -> bool {
        self != Ivar::BackgroundColor
    }

    /// The name the field is declared under.
    pub fn name(self) -> (name: &'static str)
        ensures
            name@ == self.spec_name(),
    {
        match self {
            Ivar::TextViewDelegatePtr => "rstViewDelegatePtr",
            Ivar::ListViewDelegatePtr => "rstListViewDelegatePtr",
            Ivar::BackgroundColor => "cacaoBackgroundColor",
        }
    }

    #[verifier::when_used_as_spec(spec_is_callback_slot)]
    pub fn is_callback_slot(self) -> (slot: bool)
        ensures
            slot == self.spec_is_callback_slot(),
    {
        match self {
            Ivar::BackgroundColor => false,
            _ => true,
        }
    }
}

impl Callback {
    pub open spec fn spec_selector(self) -> Seq<char> {
        match self {
            Callback::UpdateLayer => "updateLayer"@,
            Callback::TextDidChange => "textDidChange:"@,
            Callback::TextShouldBeginEditing => "textShouldBeginEditing:"@,
        }
    }

    /// The selector the toolkit sends for this callback.
    pub fn selector(self) -> (selector: &'static str)
        ensures
            selector@ == self.spec_selector(),
    {
        match self {
            Callback::UpdateLayer => "updateLayer",
            Callback::TextDidChange => "textDidChange:",
            Callback::TextShouldBeginEditing => "textShouldBeginEditing:",
        }
    }
}

/// What a generated subclass is known by: its base class and the behaviour
/// type it serves. The class that a base has for views without a behaviour
/// is known by the base alone, so that no behaviour type can be taken for
/// it, whatever its name.
pub struct ClassKey {
    pub base: Seq<char>,
    pub behavior: Option<Seq<char>>,
}

impl ClassKey {
    /// The key of a base class and a behaviour type, or of a base class
    /// and none.
    pub open spec fn of(base: &str, behavior: Option<&str>) -> ClassKey {
        ClassKey {
            base: base@,
            behavior: match behavior {
                Some(name) => Some(name@),
                None => None,
            },
        }
    }
}

/// What the host runtime is asked to declare: a subclass of `base`, for
/// the behaviour type `behavior` if there is one, under the name
/// `host_name`, with these extra fields and a trampoline for each of these
/// callbacks.
pub struct ClassDescriptor {
    pub base: String,
    pub behavior: Option<String>,
    pub host_name: String,
    pub ivars: Vec<Ivar>,
    pub callbacks: Vec<Callback>,
}

impl ClassDescriptor {
    /// The key the class is registered under.
    pub open spec fn key(&self) -> ClassKey {
        ClassKey {
            base: self.base@,
            behavior: match self.behavior {
                Some(name) => Some(name@),
                None => None,
            },
        }
    }

    /// How many callback slots an instance of the class gets.
    pub open spec fn slot_count(ivars: Seq<Ivar>) -> nat
        decreases ivars.len(),
    {
        if ivars.len() == 0 {
            0
        } else {
            Self::slot_count(ivars.drop_last()) + (if ivars.last().spec_is_callback_slot() {
                1nat
            } else {
                0nat
            })
        }
    }

    /// The class that `base` has for views without a behaviour: a colour,
    /// and the layer update that paints with it. No other callback can be
    /// answered without a behaviour. The host knows the class by
    /// `host_name`.
    pub fn plain(base: &str, host_name: &str) -> (descriptor: ClassDescriptor)
        ensures
            descriptor.key() == ClassKey::of(base, None),
            descriptor.host_name@ == host_name@,
            descriptor.ivars@ == seq![Ivar::BackgroundColor],
            descriptor.callbacks@ == seq![Callback::UpdateLayer],
            Self::slot_count(descriptor.ivars@) == 0,
    {
        let mut ivars: Vec<Ivar> = Vec::new();
        ivars.push(Ivar::BackgroundColor);
        let mut callbacks: Vec<Callback> = Vec::new();
        callbacks.push(Callback::UpdateLayer);
        proof {
            reveal_with_fuel(ClassDescriptor::slot_count, 2);
        }
        ClassDescriptor {
            base: base.to_owned(),
            behavior: None,
            host_name: host_name.to_owned(),
            ivars,
            callbacks,
        }
    }

    /// The class of views with a behaviour of type `name`: the callback
    /// slot `slot`, a colour, and a trampoline for each of `callbacks`.
    /// The host knows it by `name`, an underscore and `base`, so that one
    /// behaviour type can serve views of several base classes.
    pub fn with_slot(base: &str, name: &str, slot: Ivar, callbacks: Vec<Callback>) -> (descriptor:
        ClassDescriptor)
        requires
            slot.spec_is_callback_slot(),
        ensures
            descriptor.key() == ClassKey::of(base, Some(name)),
            descriptor.host_name@ == name@ + "_"@ + base@,
            descriptor.ivars@ == seq![slot, Ivar::BackgroundColor],
            descriptor.callbacks@ == callbacks@,
            Self::slot_count(descriptor.ivars@) == 1,
    {
        let mut ivars: Vec<Ivar> = Vec::new();
        ivars.push(slot);
        ivars.push(Ivar::BackgroundColor);
        proof {
            reveal_with_fuel(ClassDescriptor::slot_count, 3);
        }
        let mut host_name: String = name.to_owned();
        host_name.append("_");
        host_name.append(base);
        ClassDescriptor {
            base: base.to_owned(),
            behavior: Some(name.to_owned()),
            host_name,
            ivars,
            callbacks,
        }
    }
}

/// What a registry holds, as mathematics.
#[verifier::ext_equal]
pub struct RegistryModel {
    /// The token of every pair registered so far.
    pub classes: Map<ClassKey, ClassToken>,
    /// How often the host runtime has declared a class for this registry.
    pub declarations: nat,
}

impl RegistryModel {
    pub open spec fn empty() -> RegistryModel {
        RegistryModel { classes: Map::empty(), declarations: 0 }
    }

    /// The token registered for `key`, if there is one.
    pub open spec fn load(self, key: ClassKey) -> Option<ClassToken> {
        if self.classes.contains_key(key) {
            Some(self.classes[key])
        } else {
            None
        }
    }

    /// Whether a request for `key` has to go to the host runtime.
    pub open spec fn must_declare(self, key: ClassKey) -> bool {
        !self.classes.contains_key(key)
    }

    /// The registry after a request for `key`, where `declared` is the
    /// class that the host runtime declares if it is asked to.
    pub open spec fn settle(self, key: ClassKey, declared: ClassToken) -> RegistryModel {
        if self.must_declare(key) {
            RegistryModel {
                classes: self.classes.insert(key, declared),
                declarations: self.declarations + 1,
            }
        } else {
            self
        }
    }

    /// What a request for `key` is answered with.
    pub open spec fn answer(self, key: ClassKey, declared: ClassToken) -> ClassToken {
        if self.must_declare(key) {
            declared
        } else {
            self.classes[key]
        }
    }

    /// The registry after these requests, in that order. A request is a
    /// key with the class that the host runtime declares for it if it is
    /// asked to.
    pub open spec fn serve(self, requests: Seq<(ClassKey, ClassToken)>) -> RegistryModel
        decreases requests.len(),
    {
        if requests.len() == 0 {
            self
        } else {
            self.serve(requests.drop_last()).settle(requests.last().0, requests.last().1)
        }
    }

    /// The registry after one request for `key` per element of
    /// `declared`, in that order.
    pub open spec fn settle_all(self, key: ClassKey, declared: Seq<ClassToken>) -> RegistryModel
        decreases declared.len(),
    {
        if declared.len() == 0 {
            self
        } else {
            self.settle_all(key, declared.drop_last()).settle(key, declared.last())
        }
    }
}

struct ClassEntry {
    base: String,
    behavior: Option<String>,
    token: ClassToken,
}

impl ClassEntry {
    spec fn key(self) -> ClassKey {
        ClassKey {
            base: self.base@,
            behavior: match self.behavior {
                Some(name) => Some(name@),
                None => None,
            },
        }
    }

    /// Whether the entry is that of the base class and behaviour type.
    fn is_for(&self, base: &String, behavior: &Option<String>) -> (same: bool)
        ensures
            same == (self.base@ == base@ && match (self.behavior, *behavior) {
                (Some(mine), Some(wanted)) => mine@ == wanted@,
                (None, None) => true,
                _ => false,
            }),
    {
        if self.base == *base {
            match (&self.behavior, behavior) {
                (Some(mine), Some(wanted)) => *mine == *wanted,
                (None, None) => true,
                _ => false,
            }
        } else {
            false
        }
    }
}

/// An owned copy of a behaviour type's name, if there is one.
fn owned(behavior: Option<&str>) -> (copy: Option<String>)
    ensures
        copy is Some == behavior is Some,
        copy is Some ==> copy->0@ == behavior->0@,
{
    match behavior {
        Some(name) => Some(name.to_owned()),
        None => None,
    }
}

/// The registry itself. One value of it serves a whole process.
pub struct SubclassRegistry {
    entries: Vec<ClassEntry>,
}

impl SubclassRegistry {
    #[verifier::type_invariant]
    spec fn distinct_keys(self) -> bool {
        forall|i: int, j: int|
            0 <= i < j < self.entries.len() ==> (#[trigger] self.entries[i]).key() != (
            #[trigger] self.entries[j]).key()
    }

    spec fn holds(self, key: ClassKey, i: int) -> bool {
        0 <= i < self.entries.len() && self.entries[i].key() == key
    }

    pub closed spec fn view(&self) -> RegistryModel {
        RegistryModel {
            classes: Map::new(
                |key: ClassKey| exists|i: int| self.holds(key, i),
                |key: ClassKey| self.entries[choose|i: int| self.holds(key, i)].token,
            ),
            declarations: self.entries.len() as nat,
        }
    }

    /// The entry that holds a pair is the one the view speaks of.
    proof fn found_at(self, key: ClassKey, i: int)
        requires
            self.distinct_keys(),
            self.holds(key, i),
        ensures
            self@.classes.contains_key(key),
            self@.classes[key] == self.entries[i].token,
    {
        let chosen = choose|j: int| self.holds(key, j);
        assert(self.holds(key, chosen));
        assert(chosen == i);
    }

    /// One more entry leaves every other pair as it was.
    proof fn kept_at(self, before: SubclassRegistry, entry: ClassEntry, key: ClassKey)
        requires
            before.distinct_keys(),
            self.distinct_keys(),
            self.entries@ == before.entries@.push(entry),
            key != entry.key(),
        ensures
            self@.classes.contains_key(key) == before@.classes.contains_key(key),
            self@.classes.contains_key(key) ==> self@.classes[key] == before@.classes[key],
    {
        if self@.classes.contains_key(key) {
            let i = choose|i: int| self.holds(key, i);
            assert(self.holds(key, i));
            assert(before.holds(key, i));
            before.found_at(key, i);
            self.found_at(key, i);
        }
        if before@.classes.contains_key(key) {
            let i = choose|i: int| before.holds(key, i);
            assert(before.holds(key, i));
            assert(self.holds(key, i));
            before.found_at(key, i);
            self.found_at(key, i);
        }
    }

    /// One more entry, for a pair that no entry holds, is one more class.
    proof fn grown_by(self, before: SubclassRegistry, entry: ClassEntry)
        requires
            before.distinct_keys(),
            self.entries@ == before.entries@.push(entry),
            forall|i: int| !before.holds(entry.key(), i),
        ensures
            self.distinct_keys(),
            self@.classes == before@.classes.insert(entry.key(), entry.token),
            self@.declarations == before@.declarations + 1,
    {
        let last = before.entries.len() as int;
        assert forall|i: int, j: int| 0 <= i < j < self.entries.len() implies (
        #[trigger] self.entries[i]).key() != (#[trigger] self.entries[j]).key() by {
            if j == last {
                assert(!before.holds(entry.key(), i));
            } else {
                assert(self.entries[i] == before.entries[i]);
                assert(self.entries[j] == before.entries[j]);
            }
        }
        assert(self.holds(entry.key(), last));
        self.found_at(entry.key(), last);
        let grown = before@.classes.insert(entry.key(), entry.token);
        assert forall|key: ClassKey| #[trigger]
            self@.classes.contains_key(key) <==> grown.contains_key(key) by {
            if key != entry.key() {
                self.kept_at(before, entry, key);
            }
        }
        assert forall|key: ClassKey| #[trigger] self@.classes.contains_key(key) implies self@.classes[key]
            == grown[key] by {
            if key != entry.key() {
                self.kept_at(before, entry, key);
            }
        }
        assert(self@.classes =~= grown);
    }

    /// A registry that has seen no request yet.
    pub fn new() -> (registry: SubclassRegistry)
        ensures
            registry@ == RegistryModel::empty(),
    {
        let registry = SubclassRegistry { entries: Vec::new() };
        assert(registry@.classes =~= Map::<ClassKey, ClassToken>::empty());
        registry
    }

    /// How often the host runtime has declared a class for this registry.
    pub fn declarations(&self) -> (count: usize)
        ensures
            count == self@.declarations,
    {
        self.entries.len()
    }

    fn position(&self, base: &str, behavior: Option<&str>) -> (found: Option<usize>)
        ensures
            match found {
                Some(i) => self.holds(ClassKey::of(base, behavior), i as int),
                None => forall|i: int| !self.holds(ClassKey::of(base, behavior), i),
            },
    {
        let wanted_base: String = base.to_owned();
        let wanted_behavior: Option<String> = owned(behavior);
        let ghost key = ClassKey::of(base, behavior);
        let mut i: usize = 0;
        while i < self.entries.len()
            invariant
                i <= self.entries.len(),
                wanted_base@ == base@,
                wanted_behavior is Some == behavior is Some,
                wanted_behavior is Some ==> wanted_behavior->0@ == behavior->0@,
                key == ClassKey::of(base, behavior),
                forall|j: int| 0 <= j < i ==> !self.holds(key, j),
            decreases self.entries.len() - i,
        {
            if self.entries[i].is_for(&wanted_base, &wanted_behavior) {
                return Some(i);
            }
            i += 1;
        }
        None
    }

    /// The token registered for the base class and behaviour type, or for
    /// the base class without a behaviour, if there is one.
    pub fn load(&self, base: &str, behavior: Option<&str>) -> (found: Option<ClassToken>)
        ensures
            found == self@.load(ClassKey::of(base, behavior)),
    {
        proof {
            use_type_invariant(self);
        }
        match self.position(base, behavior) {
            Some(i) => {
                proof {
                    self.found_at(ClassKey::of(base, behavior), i as int);
                }
                Some(self.entries[i].token)
            },
            None => None,
        }
    }

    /// Answers a request for the base class and behaviour type, given in
    /// `declared` the class that the host runtime declared for it. What is
    /// registered already keeps its token, and `declared` is not looked
    /// at.
    pub fn settle(&mut self, base: &str, behavior: Option<&str>, declared: ClassToken) -> (answer:
        ClassToken)
        ensures
            final(self)@ == old(self)@.settle(ClassKey::of(base, behavior), declared),
            answer == old(self)@.answer(ClassKey::of(base, behavior), declared),
    {
        proof {
            use_type_invariant(&*self);
        }
        let ghost before = *self;
        match self.position(base, behavior) {
            Some(i) => {
                proof {
                    self.found_at(ClassKey::of(base, behavior), i as int);
                }
                self.entries[i].token
            },
            None => {
                let entry = ClassEntry {
                    base: base.to_owned(),
                    behavior: owned(behavior),
                    token: declared,
                };
                assert(entry.key() == ClassKey::of(base, behavior));
                let mut entries: Vec<ClassEntry> = Vec::new();
                std::mem::swap(&mut entries, &mut self.entries);
                entries.push(entry);
                proof {
                    let after = SubclassRegistry { entries };
                    after.grown_by(before, entry);
                }
                self.entries = entries;
                declared
            },
        }
    }

    /// Hands out the class that `descriptor` asks for. What is registered
    /// already is answered from the registry and `declare` is not called.
    /// Otherwise `declare` is called once, with the descriptor: it has
    /// the host runtime declare the class and returns its token, which is
    /// then registered.
    ///
    /// A host that refuses the class leaves nothing to go on with. There
    /// is no error for that case: `declare` ends the process instead of
    /// returning.
    pub fn load_or_register_class<F: FnOnce(&ClassDescriptor) -> ClassToken>(
        &mut self,
        descriptor: &ClassDescriptor,
        declare: F,
    ) -> (answer: ClassToken)
        requires
            call_requires(declare, (descriptor,)),
        ensures
            !old(self)@.must_declare(descriptor.key()) ==> {
                &&& final(self)@ == old(self)@
                &&& answer == old(self)@.classes[descriptor.key()]
            },
            old(self)@.must_declare(descriptor.key()) ==> {
                &&& call_ensures(declare, (descriptor,), answer)
                &&& final(self)@ == old(self)@.settle(descriptor.key(), answer)
            },
    {
        let base: &str = descriptor.base.as_str();
        let behavior: Option<&str> = match &descriptor.behavior {
            Some(name) => Some(name.as_str()),
            None => None,
        };
        assert(ClassKey::of(base, behavior) == descriptor.key());
        match self.load(base, behavior) {
            Some(token) => token,
            None => {
                let declared = declare(descriptor);
                self.settle(base, behavior, declared)
            },
        }
    }
}

/// Two requests for one pair get the same token, and the second changes
/// nothing: whatever class the host runtime would declare if it were asked
/// again, a later request for the pair is answered as the first was.
pub proof fn same_pair_same_token(
    registry: RegistryModel,
    key: ClassKey,
    first: ClassToken,
    second: ClassToken,
)
    ensures
        registry.settle(key, first).answer(key, second) == registry.answer(key, first),
        registry.settle(key, first).settle(key, second) == registry.settle(key, first),
        !registry.settle(key, first).must_declare(key),
{
}

/// However often a pair is requested, the host runtime declares its class
/// once: after one or more requests for a pair that was not registered the
/// registry has counted one declaration more, holds for the pair the class
/// that the first request had declared, and has answered every one of the
/// requests with it.
pub proof fn first_use_declares_once(registry: RegistryModel, key: ClassKey, declared: Seq<ClassToken>)
    requires
        registry.must_declare(key),
        declared.len() >= 1,
    ensures
        registry.settle_all(key, declared) == registry.settle(key, declared[0]),
        registry.settle_all(key, declared).declarations == registry.declarations + 1,
        registry.settle_all(key, declared).classes == registry.classes.insert(key, declared[0]),
        forall|n: int|
            0 <= n < declared.len() ==> #[trigger] registry.settle_all(key, declared.take(n)).answer(
                key,
                declared[n],
            ) == declared[0],
    decreases declared.len(),
{
    if declared.len() == 1 {
        assert(registry.settle_all(key, declared.drop_last()) == registry);
    } else {
        first_use_declares_once(registry, key, declared.drop_last());
    }
    assert forall|n: int| 0 <= n < declared.len() implies #[trigger] registry.settle_all(
        key,
        declared.take(n),
    ).answer(key, declared[n]) == declared[0] by {
        if n > 0 {
            first_use_declares_once(registry, key, declared.take(n));
        }
    }
}

/// Serving requests one after the other is serving them all.
proof fn serve_in_two_parts(
    registry: RegistryModel,
    first: Seq<(ClassKey, ClassToken)>,
    then: Seq<(ClassKey, ClassToken)>,
)
    ensures
        registry.serve(first + then) == registry.serve(first).serve(then),
    decreases then.len(),
{
    if then.len() == 0 {
        assert(first + then == first);
    } else {
        serve_in_two_parts(registry, first, then.drop_last());
        assert((first + then).drop_last() == first + then.drop_last());
        assert((first + then).last() == then.last());
    }
}

/// What is registered is still registered, with the same token, after any
/// requests.
proof fn served_classes_stay(
    registry: RegistryModel,
    requests: Seq<(ClassKey, ClassToken)>,
    key: ClassKey,
)
    requires
        registry.classes.contains_key(key),
    ensures
        registry.serve(requests).classes.contains_key(key),
        registry.serve(requests).classes[key] == registry.classes[key],
    decreases requests.len(),
{
    if requests.len() > 0 {
        served_classes_stay(registry, requests.drop_last(), key);
    }
}

/// In whatever order requests for whatever classes come in, the host
/// runtime is asked at most once for each class: of two requests for one
/// key the later never reaches the host, and is answered with the token
/// that the earlier was answered with. Requests that come in at once are
/// served one at a time, so this holds of every interleaving of them.
pub proof fn each_class_is_declared_once(
    registry: RegistryModel,
    requests: Seq<(ClassKey, ClassToken)>,
    i: int,
    j: int,
)
    requires
        0 <= i < j < requests.len(),
        requests[i].0 == requests[j].0,
    ensures
        !registry.serve(requests.take(j)).must_declare(requests[j].0),
        registry.serve(requests.take(j)).answer(requests[j].0, requests[j].1) == registry.serve(
            requests.take(i),
        ).answer(requests[i].0, requests[i].1),
        registry.serve(requests.take(j + 1)).declarations == registry.serve(
            requests.take(j),
        ).declarations,
{
    let key = requests[i].0;
    let through_i = requests.take(i + 1);
    let between = requests.subrange(i + 1, j);
    assert(through_i.drop_last() == requests.take(i));
    assert(through_i.last() == requests[i]);
    let settled = registry.serve(through_i);
    assert(settled.classes.contains_key(key));
    assert(settled.classes[key] == registry.serve(requests.take(i)).answer(key, requests[i].1));
    assert(requests.take(j) == through_i + between);
    serve_in_two_parts(registry, through_i, between);
    served_classes_stay(settled, between, key);
    let through_j = requests.take(j + 1);
    assert(through_j.drop_last() == requests.take(j));
    assert(through_j.last() == requests[j]);
}

/// What is registered stays registered: a request, for whatever pair and
/// whatever the host runtime declares for it, takes no class out of the
/// registry, changes no token, and never lowers the count of declarations.
pub proof fn registered_classes_stay(
    registry: RegistryModel,
    key: ClassKey,
    declared: ClassToken,
    other: ClassKey,
)
    requires
        registry.classes.contains_key(other),
    ensures
        registry.settle(key, declared).classes.contains_key(other),
        registry.settle(key, declared).classes[other] == registry.classes[other],
        registry.settle(key, declared).declarations >= registry.declarations,
{
}

/// Requests for a pair that is registered never reach the host runtime:
/// the registry stays as it is, whatever the host would declare.
pub proof fn later_use_declares_nothing(
    registry: RegistryModel,
    key: ClassKey,
    declared: Seq<ClassToken>,
)
    requires
        !registry.must_declare(key),
    ensures
        registry.settle_all(key, declared) == registry,
    decreases declared.len(),
{
    if declared.len() > 0 {
        later_use_declares_nothing(registry, key, declared.drop_last());
    }
}

} // verus!
