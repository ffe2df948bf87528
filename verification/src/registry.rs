use vstd::prelude::*;

verus! {

/// One exported method of a class: the identifier under which the host
/// invokes it, and the token of the callback that serves it.
#[derive(Clone, Copy, Debug, PartialEq, Eq, Structural)]
pub struct MethodEntry {
    pub method_id: u64,
    pub callback: u64,
}

/// The description of one exported class: its name, the name of its parent
/// class, the token of its constructor callback, and its dispatch table.
pub struct ClassPlugin {
    pub class_name: String,
    pub parent_name: String,
    pub constructor: u64,
    pub methods: Vec<MethodEntry>,
}

/// A class description as a mathematical value.
pub struct ClassModel {
    pub class_name: Seq<char>,
    pub parent_name: Seq<char>,
    pub constructor: u64,
    pub methods: Seq<MethodEntry>,
}

impl View for ClassPlugin {
    type V = ClassModel;

    open spec fn view(&self) -> ClassModel {
        ClassModel {
            class_name: self.class_name@,
            parent_name: self.parent_name@,
            constructor: self.constructor,
            methods: self.methods@,
        }
    }
}

/// The index of the first description at or after `start` whose class name
/// is `name`.
pub open spec fn find_from(classes: Seq<ClassModel>, name: Seq<char>, start: int) -> Option<int>
    decreases classes.len() - start,
{
    if start < 0 || start >= classes.len() {
        None
    } else if classes[start].class_name == name {
        Some(start)
    } else {
        find_from(classes, name, start + 1)
    }
}

/// The index of the first description of the class `name`.
pub open spec fn find_class(classes: Seq<ClassModel>, name: Seq<char>) -> Option<int> {
    find_from(classes, name, 0)
}

/// `class` reaches `target` in at most `fuel` steps from a registered class
/// to its parent.
pub open spec fn derives_from(
    classes: Seq<ClassModel>,
    class: Seq<char>,
    target: Seq<char>,
    fuel: nat,
) -> bool
    decreases fuel,
{
    class == target || (fuel > 0 && match find_class(classes, class) {
        Some(i) => derives_from(classes, classes[i].parent_name, target, (fuel - 1) as nat),
        None => false,
    })
}

/// `target` is `class` itself or one of its ancestors. The chain is followed
/// for as many steps as there are descriptions: a longer chain repeats a
/// class and reaches nothing new.
pub open spec fn inherits(classes: Seq<ClassModel>, class: Seq<char>, target: Seq<char>) -> bool {
    derives_from(classes, class, target, classes.len())
}

/// The callback of the first entry at or after `start` that serves
/// `method_id`.
pub open spec fn find_method(methods: Seq<MethodEntry>, method_id: u64, start: int) -> Option<u64>
    decreases methods.len() - start,
{
    if start < 0 || start >= methods.len() {
        None
    } else if methods[start].method_id == method_id {
        Some(methods[start].callback)
    } else {
        find_method(methods, method_id, start + 1)
    }
}

/// The callback that serves `method_id` for an instance of `class`: that of
/// the class's own table, else that of the nearest ancestor which has one,
/// looking at most `fuel` parents up.
pub open spec fn resolve_within(
    classes: Seq<ClassModel>,
    class: Seq<char>,
    method_id: u64,
    fuel: nat,
) -> Option<u64>
    decreases fuel,
{
    match find_class(classes, class) {
        None => None,
        Some(i) => match find_method(classes[i].methods, method_id, 0) {
            Some(callback) => Some(callback),
            None => if fuel == 0 {
                None
            } else {
                resolve_within(classes, classes[i].parent_name, method_id, (fuel - 1) as nat)
            },
        },
    }
}

/// The callback that serves `method_id` for an instance of `class`, if the
/// class or one of its registered ancestors exports the method.
pub open spec fn resolve(classes: Seq<ClassModel>, class: Seq<char>, method_id: u64) -> Option<
    u64,
> {
    resolve_within(classes, class, method_id, classes.len())
}

/// Why a registration was turned down.
#[derive(Clone, Copy, Debug, PartialEq, Eq, Structural)]
pub enum RegistryError {
    /// The registration phase is over: the table is read-only.
    Sealed,
}

/// The catalogue of exported classes. It accepts descriptions until it is
/// sealed and is read-only from then on; nothing is ever removed.
pub struct PluginRegistry {
    plugins: Vec<ClassPlugin>,
    sealed: bool,
}

impl PluginRegistry {
    /// The registered descriptions, in the order of their registration.
    pub closed spec fn entries(&self) -> Seq<ClassPlugin> {
        self.plugins@
    }

    /// The registered descriptions as mathematical values.
    pub open spec fn classes(&self) -> Seq<ClassModel> {
        self.entries().map_values(|p: ClassPlugin| p@)
    }

    /// Whether the registration phase is over.
    pub closed spec fn sealed(&self) -> bool {
        self.sealed
    }

    /// An empty catalogue that accepts registrations.
    pub fn new() -> (registry: PluginRegistry)
        ensures
            registry.entries().len() == 0,
            !registry.sealed(),
    {
        PluginRegistry { plugins: Vec::new(), sealed: false }
    }

    /// Appends a description. After the catalogue was sealed the
    /// description is turned down and nothing changes.
    pub fn register(&mut self, plugin: ClassPlugin) -> (outcome: Result<(), RegistryError>)
        ensures
            final(self).sealed() == old(self).sealed(),
            old(self).sealed() ==> outcome == Err::<(), RegistryError>(RegistryError::Sealed)
                && final(self).entries() == old(self).entries(),
            !old(self).sealed() ==> outcome.is_ok() && final(self).entries() == old(
                self,
            ).entries().push(plugin),
    {
        if self.sealed {
            return Err(RegistryError::Sealed);
        }
        self.plugins.push(plugin);
        Ok(())
    }

    /// Ends the registration phase. The descriptions stay as they are.
    pub fn seal(&mut self)
        ensures
            final(self).sealed(),
            final(self).entries() == old(self).entries(),
    {
        self.sealed = true;
    }

    pub fn is_sealed(&self) -> (sealed: bool)
        ensures
            sealed == self.sealed(),
    {
        self.sealed
    }

    /// The number of registered descriptions.
    pub fn len(&self) -> (n: usize)
        ensures
            n == self.entries().len(),
    {
        self.plugins.len()
    }

    /// The description registered as the `index`-th.
    pub fn plugin(&self, index: usize) -> (plugin: &ClassPlugin)
        requires
            index < self.entries().len(),
        ensures
            *plugin == self.entries()[index as int],
    {
        &self.plugins[index]
    }

    /// The position of the first description of the class `name`.
    pub fn find_class(&self, name: &String) -> (found: Option<usize>)
        ensures
            found.is_some() == find_class(self.classes(), name@).is_some(),
            found.is_some() ==> found.unwrap() == find_class(self.classes(), name@).unwrap(),
            found.is_some() ==> found.unwrap() < self.entries().len(),
    {
        let mut i: usize = 0;
        while i < self.plugins.len()
            invariant
                i <= self.plugins.len(),
                find_class(self.classes(), name@) == find_from(self.classes(), name@, i as int),
            decreases self.plugins.len() - i,
        {
            if self.plugins[i].class_name == *name {
                return Some(i);
            }
            i += 1;
        }
        None
    }

    /// Whether `target` is `class` itself or one of its ancestors.
    pub fn inherits(&self, class: &String, target: &String) -> (yes: bool)
        ensures
            yes == inherits(self.classes(), class@, target@),
    {
        let mut current: String = class.clone();
        let mut fuel: usize = self.plugins.len();
        loop
            invariant
                fuel <= self.plugins.len(),
                inherits(self.classes(), class@, target@) == derives_from(
                    self.classes(),
                    current@,
                    target@,
                    fuel as nat,
                ),
            decreases fuel,
        {
            if current == *target {
                return true;
            }
            if fuel == 0 {
                return false;
            }
            match self.find_class(&current) {
                None => {
                    return false;
                },
                Some(i) => {
                    assert(self.classes()[i as int] == self.plugins@[i as int]@);
                    current = self.plugins[i].parent_name.clone();
                    fuel -= 1;
                },
            }
        }
    }

    /// The callback that serves `method_id` for an instance of `class`:
    /// `None` where neither the class nor a registered ancestor exports the
    /// method.
    pub fn resolve_method(&self, class: &String, method_id: u64) -> (callback: Option<u64>)
        ensures
            callback == resolve(self.classes(), class@, method_id),
    {
        let mut current: String = class.clone();
        let mut fuel: usize = self.plugins.len();
        loop
            invariant
                fuel <= self.plugins.len(),
                resolve(self.classes(), class@, method_id) == resolve_within(
                    self.classes(),
                    current@,
                    method_id,
                    fuel as nat,
                ),
            decreases fuel,
        {
            match self.find_class(&current) {
                None => {
                    return None;
                },
                Some(i) => {
                    assert(self.classes()[i as int] == self.plugins@[i as int]@);
                    let found = lookup_method(&self.plugins[i].methods, method_id);
                    if found.is_some() {
                        return found;
                    }
                    if fuel == 0 {
                        return None;
                    }
                    current = self.plugins[i].parent_name.clone();
                    fuel -= 1;
                },
            }
        }
    }
}

/// The callback of the first entry of `methods` that serves `method_id`.
pub fn lookup_method(methods: &Vec<MethodEntry>, method_id: u64) -> (callback: Option<u64>)
    ensures
        callback == find_method(methods@, method_id, 0),
{
    let mut i: usize = 0;
    while i < methods.len()
        invariant
            i <= methods.len(),
            find_method(methods@, method_id, 0) == find_method(methods@, method_id, i as int),
        decreases methods.len() - i,
    {
        if methods[i].method_id == method_id {
            return Some(methods[i].callback);
        }
        i += 1;
    }
    None
}

/// A class is its own ancestor in the sense of `inherits`.
pub proof fn lemma_inherits_itself(classes: Seq<ClassModel>, class: Seq<char>)
    ensures
        inherits(classes, class, class),
{
}

/// A registered class inherits from the parent that its description names.
pub proof fn lemma_child_inherits_parent(classes: Seq<ClassModel>, child: Seq<char>)
    requires
        find_class(classes, child).is_some(),
    ensures
        inherits(classes, child, classes[find_class(classes, child).unwrap()].parent_name),
{
    lemma_find_from_in_range(classes, child, 0);
    let i = find_class(classes, child).unwrap();
    assert(derives_from(
        classes,
        classes[i].parent_name,
        classes[i].parent_name,
        (classes.len() - 1) as nat,
    ));
}

/// A class that is not registered has no ancestor but itself: a handle whose
/// runtime class is such a class can be cast to no other class.
pub proof fn lemma_unregistered_inherits_only_itself(
    classes: Seq<ClassModel>,
    class: Seq<char>,
    target: Seq<char>,
)
    requires
        find_class(classes, class).is_none(),
    ensures
        inherits(classes, class, target) == (class == target),
{
}

/// What `find_from` finds lies at or after `start`, within the table, and
/// carries the name that was asked for.
pub proof fn lemma_find_from_in_range(classes: Seq<ClassModel>, name: Seq<char>, start: int)
    requires
        0 <= start,
    ensures
        find_from(classes, name, start).is_some() ==> start <= find_from(
            classes,
            name,
            start,
        ).unwrap() < classes.len() && classes[find_from(classes, name, start).unwrap()].class_name
            == name,
    decreases classes.len() - start,
{
    if start < classes.len() && classes[start].class_name != name {
        lemma_find_from_in_range(classes, name, start + 1);
    }
}

/// A registered class whose parent is not registered has two ancestors in
/// the sense of `inherits`, itself and that parent, and no other: a handle
/// whose runtime class is such a class cannot be cast down to a class that
/// was derived from it.
pub proof fn lemma_root_class_ancestors(
    classes: Seq<ClassModel>,
    class: Seq<char>,
    target: Seq<char>,
)
    requires
        find_class(classes, class).is_some(),
        find_class(classes, classes[find_class(classes, class).unwrap()].parent_name).is_none(),
    ensures
        inherits(classes, class, target) == (target == class || target
            == classes[find_class(classes, class).unwrap()].parent_name),
{
    lemma_find_from_in_range(classes, class, 0);
    reveal_with_fuel(derives_from, 2);
}

/// A class that no registered class names as its parent is an ancestor of
/// no class but itself: a handle whose runtime class is another class cannot
/// be cast down to it, whatever else is registered.
pub proof fn lemma_leaf_class_is_no_ancestor(
    classes: Seq<ClassModel>,
    class: Seq<char>,
    leaf: Seq<char>,
)
    requires
        forall|i: int| 0 <= i < classes.len() ==> (#[trigger] classes[i]).parent_name != leaf,
        class != leaf,
    ensures
        !inherits(classes, class, leaf),
{
    lemma_leaf_is_not_reached(classes, class, leaf, classes.len());
}

/// No number of steps from a class to its parent leads to a class that no
/// registered class names as its parent.
pub proof fn lemma_leaf_is_not_reached(
    classes: Seq<ClassModel>,
    class: Seq<char>,
    leaf: Seq<char>,
    fuel: nat,
)
    requires
        forall|i: int| 0 <= i < classes.len() ==> (#[trigger] classes[i]).parent_name != leaf,
        class != leaf,
    ensures
        !derives_from(classes, class, leaf, fuel),
    decreases fuel,
{
    if fuel > 0 {
        match find_class(classes, class) {
            Some(i) => {
                lemma_find_from_in_range(classes, class, 0);
                lemma_leaf_is_not_reached(
                    classes,
                    classes[i].parent_name,
                    leaf,
                    (fuel - 1) as nat,
                );
            },
            None => {},
        }
    }
}

} // verus!
