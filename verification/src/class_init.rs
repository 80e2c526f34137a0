//! Class initialization: before a class is used, its superclass and those of
//! its interfaces that have an initializer are initialized, then its own
//! class initializer runs. The work is done one step at a time; a step that
//! asks for a class initializer to run hands it to the caller, which runs it
//! and then takes the next step.
use crate::class::{is_todo, BaseClass, BaseClassView, ClassState, StaticField};
use crate::error::JvmError;
use crate::interner::{intern, interned_strings, resolve};
use crate::keys::{ClassId, FieldKey, MethodId};
use crate::natives::key_of;
use crate::value::Value;
use lasso::ThreadedRodeo;
use vstd::prelude::*;

verus! {

/// Whether a loaded class is a class proper or an interface.
#[derive(Clone, Copy, Debug, PartialEq, Eq, Structural)]
pub enum ClassKind {
    Instance,
    Interface,
    /// A primitive or array class: nothing to run.
    Other,
}

/// A loaded class as initialization sees it.
pub struct LoadedClass {
    pub kind: ClassKind,
    pub base: BaseClass,
}

/// The loaded classes, by id.
pub struct ClassTable {
    classes: Vec<LoadedClass>,
}

/// One piece of work left in initializing a class.
#[derive(Clone, Copy, Debug, PartialEq, Eq, Structural)]
pub enum InitStep {
    /// Initialize this class unless it is initialized or initializing.
    Visit(ClassId),
    /// Initialize the superclass of this class.
    Super(ClassId),
    /// Initialize the interfaces of this class from this position on.
    Interfaces(ClassId, usize),
    /// Run the class initializer of this class.
    Clinit(ClassId),
    /// Mark this class initialized.
    Finish(ClassId),
}

/// What the caller does after a step.
#[derive(Clone, Copy, Debug, PartialEq, Eq, Structural)]
pub enum InitAction {
    /// Take the next step.
    Continue,
    /// Run the class initializer of this class, then take the next step.
    RunClinit(ClassId, MethodId),
    /// The class is initialized, or being initialized further up.
    Done,
}

/// The work left in initializing one class, as a stack: the next step is
/// the last one.
pub struct Initializer {
    stack: Vec<InitStep>,
    target: Ghost<Option<ClassId>>,
    handed: Ghost<Set<ClassId>>,
}

/// How far a state is along initialization.
pub open spec fn rank(s: ClassState) -> int {
    match s {
        ClassState::Loaded | ClassState::Linked => 0,
        ClassState::Initializing => 1,
        ClassState::Initialized => 2,
    }
}

/// The class a step is about.
pub open spec fn step_class(s: InitStep) -> ClassId {
    match s {
        InitStep::Visit(c) => c,
        InitStep::Super(c) => c,
        InitStep::Interfaces(c, _) => c,
        InitStep::Clinit(c) => c,
        InitStep::Finish(c) => c,
    }
}

impl ClassTable {
    /// The classes, by id.
    pub closed spec fn classes(&self) -> Seq<(ClassKind, BaseClassView)> {
        self.classes@.map_values(|c: LoadedClass| (c.kind, c.base@))
    }
}

/// Whether `id` names a class of `t`.
pub open spec fn valid_id(t: Seq<(ClassKind, BaseClassView)>, id: ClassId) -> bool {
    id.0 < t.len()
}

/// Whether the classes refer only to classes of the table: superclasses,
/// and interfaces, which are interfaces.
pub open spec fn table_wf(t: Seq<(ClassKind, BaseClassView)>) -> bool {
    forall|i: int|
        0 <= i < t.len() ==> {
            &&& (#[trigger] t[i]).1.super_id matches Some(s) ==> valid_id(t, s)
            &&& t[i].1.interfaces matches Some(v) ==> forall|k: int|
                0 <= k < v.len() ==> valid_id(t, #[trigger] v[k]) && t[v[k].0 as int].0 == ClassKind::Interface
        }
}

/// Whether, from `t0` to `t1`, every class kept its kind and all its data
/// but its state and static field values, and its state only moved forward:
/// to initializing from before, or to initialized from initializing.
pub open spec fn advanced(t0: Seq<(ClassKind, BaseClassView)>, t1: Seq<(ClassKind, BaseClassView)>) -> bool {
    &&& t1.len() == t0.len()
    &&& forall|i: int|
        0 <= i < t0.len() ==> {
            &&& (#[trigger] t1[i]).0 == t0[i].0
            &&& t1[i].1 == (BaseClassView { state: t1[i].1.state, static_fields: t1[i].1.static_fields, ..t0[i].1 })
            &&& (t0[i].1.static_fields is Some <==> t1[i].1.static_fields is Some)
            &&& (t1[i].1.state == t0[i].1.state || rank(t1[i].1.state) == rank(t0[i].1.state) + 1 && (rank(
                t0[i].1.state,
            ) == 1 || t1[i].1.state == ClassState::Initializing))
        }
}

/// Whether the steps of `stack` are about classes of `t`, and every step
/// other than a visit is about a class being initialized.
pub open spec fn stack_wf(stack: Seq<InitStep>, t: Seq<(ClassKind, BaseClassView)>) -> bool {
    forall|p: int|
        0 <= p < stack.len() ==> {
            &&& valid_id(t, step_class(#[trigger] stack[p]))
            &&& !(stack[p] is Visit) ==> t[step_class(stack[p]).0 as int].1.state == ClassState::Initializing
        }
}

/// `t` with the state of class `c` set to `s`.
pub open spec fn with_state(t: Seq<(ClassKind, BaseClassView)>, c: ClassId, s: ClassState) -> Seq<
    (ClassKind, BaseClassView),
> {
    t.update(c.0 as int, (t[c.0 as int].0, BaseClassView { state: s, ..t[c.0 as int].1 }))
}

impl ClassTable {
    /// A table of the given classes; class `i` has id `i`.
    pub fn new(classes: Vec<LoadedClass>) -> (r: ClassTable)
        ensures
            r.classes() == classes@.map_values(|c: LoadedClass| (c.kind, c.base@)),
    {
        ClassTable { classes }
    }

    /// The class with id `id`.
    pub fn get_class_like(&self, id: ClassId) -> (r: &BaseClass)
        requires
            valid_id(self.classes(), id),
        ensures
            r@ == self.classes()[id.0 as int].1,
    {
        &self.classes[id.0 as usize].base
    }

    /// The kind of the class with id `id`.
    pub fn kind(&self, id: ClassId) -> (r: ClassKind)
        requires
            valid_id(self.classes(), id),
        ensures
            r == self.classes()[id.0 as int].0,
    {
        self.classes[id.0 as usize].kind
    }

    /// Sets the state of class `id`.
    fn set_state(&mut self, id: ClassId, s: ClassState)
        requires
            valid_id(old(self).classes(), id),
        ensures
            final(self).classes() == with_state(old(self).classes(), id, s),
    {
        let i = id.0 as usize;
        let mut c = self.classes.remove(i);
        match s {
            ClassState::Loaded | ClassState::Linked => {
                if s == ClassState::Loaded {
                    c.base.set_loaded();
                } else {
                    c.base.set_linked();
                }
            },
            ClassState::Initializing => c.base.set_initializing(),
            ClassState::Initialized => c.base.set_initialized(),
        }
        self.classes.insert(i, c);
        proof {
            assert(self.classes() =~= with_state(old(self).classes(), id, s));
        }
    }
}

/// `t` with the static field `fk` of class `c` set to `v`.
pub open spec fn with_static(t: Seq<(ClassKind, BaseClassView)>, c: ClassId, fk: FieldKey, v: Value) -> Seq<
    (ClassKind, BaseClassView),
> {
    let b = t[c.0 as int].1;
    let m = b.static_fields->0;
    t.update(
        c.0 as int,
        (t[c.0 as int].0, BaseClassView { static_fields: Some(m.insert(fk, StaticField { value: v, ..m[fk] })), ..b }),
    )
}

impl ClassTable {
    /// Sets the static field `field_key` of class `id` to `value`.
    pub fn set_static_field_value(&mut self, id: ClassId, field_key: &FieldKey, value: Value) -> (r: Result<
        (),
        JvmError,
    >)
        requires
            valid_id(old(self).classes(), id),
        ensures
            match old(self).classes()[id.0 as int].1.static_fields {
                Some(m) => if m.contains_key(*field_key) {
                    r is Ok && final(self).classes() == with_static(old(self).classes(), id, *field_key, value)
                } else {
                    final(self).classes() == old(self).classes() && is_todo(r, "No such field"@)
                },
                None => final(self).classes() == old(self).classes() && is_todo(r, "BaseClass static_fields not set"@),
            },
    {
        let i = id.0 as usize;
        let mut c = self.classes.remove(i);
        let r = c.base.set_static_field_value(field_key, value);
        self.classes.insert(i, c);
        proof {
            if r is Ok {
                assert(self.classes() =~= with_static(old(self).classes(), id, *field_key, value));
            } else {
                assert(self.classes() =~= old(self).classes());
            }
        }
        r
    }
}

/// Whether class `c` of `t` is initialized or being initialized.
pub open spec fn started(t: Seq<(ClassKind, BaseClassView)>, c: ClassId) -> bool {
    rank(t[c.0 as int].1.state) >= 1
}

/// Whether class `c` is started, or is `extra`, about to be visited.
pub open spec fn started_or(t: Seq<(ClassKind, BaseClassView)>, c: ClassId, extra: Option<ClassId>) -> bool {
    started(t, c) || extra == Some(c)
}

/// The interfaces of class `c`, none while they are not known.
pub open spec fn interfaces_of(t: Seq<(ClassKind, BaseClassView)>, c: ClassId) -> Seq<ClassId> {
    match t[c.0 as int].1.interfaces {
        Some(v) => v,
        None => Seq::empty(),
    }
}

/// Whether class `c` has a class initializer, so that it must be
/// initialized before a class implementing it.
pub open spec fn needs_init(t: Seq<(ClassKind, BaseClassView)>, c: ClassId) -> bool {
    t[c.0 as int].1.clinit is Some
}

/// Whether what class `c` waits for is started (or is `extra`): its
/// superclass, if it is a class proper, and those of its first `k`
/// interfaces that have a class initializer.
pub open spec fn deps_started(t: Seq<(ClassKind, BaseClassView)>, c: ClassId, k: int, extra: Option<ClassId>) -> bool {
    t[c.0 as int].0 == ClassKind::Other || {
        &&& (t[c.0 as int].0 == ClassKind::Instance && t[c.0 as int].1.super_id is Some) ==> started_or(
            t,
            t[c.0 as int].1.super_id->0,
            extra,
        )
        &&& forall|j: int|
            0 <= j < k && j < interfaces_of(t, c).len() && needs_init(t, #[trigger] interfaces_of(t, c)[j])
                ==> started_or(t, interfaces_of(t, c)[j], extra)
    }
}

/// Whether all that class `c` waits for is started.
pub open spec fn ready(t: Seq<(ClassKind, BaseClassView)>, c: ClassId) -> bool {
    deps_started(t, c, interfaces_of(t, c).len() as int, None)
}

/// The class of the visit just above position `p`, if there is one.
pub open spec fn pending(stack: Seq<InitStep>, p: int) -> Option<ClassId> {
    if p + 1 < stack.len() && stack[p + 1] is Visit {
        Some(step_class(stack[p + 1]))
    } else {
        None
    }
}

/// Whether the step at position `p` may be taken once the steps above it
/// are done: what it runs after is started, or is the visit just above.
pub open spec fn frame_ok(stack: Seq<InitStep>, p: int, t: Seq<(ClassKind, BaseClassView)>) -> bool {
    match stack[p] {
        InitStep::Interfaces(c, k) => k <= interfaces_of(t, c).len() && deps_started(t, c, k as int, pending(stack, p)),
        InitStep::Clinit(c) => deps_started(t, c, interfaces_of(t, c).len() as int, pending(stack, p)),
        InitStep::Finish(c) => deps_started(t, c, interfaces_of(t, c).len() as int, pending(stack, p)),
        _ => true,
    }
}

/// Whether every step of `stack` is in order, and no class has two steps
/// other than visits.
pub open spec fn frames_ok(stack: Seq<InitStep>, t: Seq<(ClassKind, BaseClassView)>) -> bool {
    &&& forall|p: int| 0 <= p < stack.len() ==> #[trigger] frame_ok(stack, p, t)
    &&& forall|p: int, q: int|
        0 <= p < q < stack.len() && !(#[trigger] stack[p] is Visit) && !(#[trigger] stack[q] is Visit)
            ==> step_class(stack[p]) != step_class(stack[q])
}

/// Whether the bottom step is about the class being initialized, which is
/// started once no step is left.
pub open spec fn target_ok(stack: Seq<InitStep>, t: Seq<(ClassKind, BaseClassView)>, target: Option<ClassId>) -> bool {
    match target {
        Some(g) => valid_id(t, g) && (stack.len() > 0 ==> step_class(stack[0]) == g) && (stack.len() == 0 ==> started(
            t,
            g,
        )),
        None => stack.len() == 0,
    }
}

/// The first step of initializing class `c` of kind `k`.
pub open spec fn first_step(k: ClassKind, c: ClassId) -> InitStep {
    match k {
        ClassKind::Instance => InitStep::Super(c),
        ClassKind::Interface => InitStep::Interfaces(c, 0),
        ClassKind::Other => InitStep::Finish(c),
    }
}

/// The name under which the field `javaLangRefAccess` of type
/// `jdk.internal.access.JavaLangRefAccess` is interned.
pub open spec fn ref_access_key(i: ThreadedRodeo) -> FieldKey {
    FieldKey { name: key_of(i, "javaLangRefAccess"@), desc: key_of(i, "Ljdk/internal/access/JavaLangRefAccess;"@) }
}

/// Whether class `c` is the class proper `jdk/internal/access/SharedSecrets`,
/// whose field `javaLangRefAccess` is set to a non-null stand-in once it is
/// initialized.
pub open spec fn is_shared_secrets(t: Seq<(ClassKind, BaseClassView)>, c: ClassId, i: ThreadedRodeo) -> bool {
    &&& t[c.0 as int].0 == ClassKind::Instance
    &&& interned_strings(i).contains_key(t[c.0 as int].1.name)
    &&& interned_strings(i)[t[c.0 as int].1.name] == "jdk/internal/access/SharedSecrets"@
}

/// The steps, classes and action after the top step of `stack`, when it
/// succeeds.
pub open spec fn next_state(stack: Seq<InitStep>, t: Seq<(ClassKind, BaseClassView)>, i: ThreadedRodeo) -> (
    Seq<InitStep>,
    Seq<(ClassKind, BaseClassView)>,
    InitAction,
) {
    let rest = stack.drop_last();
    match stack.last() {
        InitStep::Visit(c) => if started(t, c) {
            (rest, t, InitAction::Continue)
        } else {
            (
                rest.push(first_step(t[c.0 as int].0, c)),
                with_state(t, c, ClassState::Initializing),
                InitAction::Continue,
            )
        },
        InitStep::Super(c) => match t[c.0 as int].1.super_id {
            Some(s) => (rest.push(InitStep::Interfaces(c, 0)).push(InitStep::Visit(s)), t, InitAction::Continue),
            None => (rest.push(InitStep::Interfaces(c, 0)), t, InitAction::Continue),
        },
        InitStep::Interfaces(c, k) => {
            let v = interfaces_of(t, c);
            if k < v.len() {
                if needs_init(t, v[k as int]) {
                    (
                        rest.push(InitStep::Interfaces(c, (k + 1) as usize)).push(InitStep::Visit(v[k as int])),
                        t,
                        InitAction::Continue,
                    )
                } else {
                    (rest.push(InitStep::Interfaces(c, (k + 1) as usize)), t, InitAction::Continue)
                }
            } else {
                (rest.push(InitStep::Clinit(c)), t, InitAction::Continue)
            }
        },
        InitStep::Clinit(c) => (
            rest.push(InitStep::Finish(c)),
            t,
            match t[c.0 as int].1.clinit {
                Some(m) => InitAction::RunClinit(c, m),
                None => InitAction::Continue,
            },
        ),
        InitStep::Finish(c) => {
            let t1 = if is_shared_secrets(t, c, i) {
                with_static(t, c, ref_access_key(i), Value::Ref(0))
            } else {
                t
            };
            (rest, with_state(t1, c, ClassState::Initialized), InitAction::Continue)
        },
    }
}

/// Whether the top step of `stack` is one that reads the interfaces of a
/// class whose interfaces are not known.
pub open spec fn interfaces_missing(stack: Seq<InitStep>, t: Seq<(ClassKind, BaseClassView)>) -> bool {
    stack.len() > 0 && stack.last() is Interfaces && t[step_class(stack.last()).0 as int].1.interfaces is None
}

/// Whether the top step of `stack` finishes a class proper, whose name is
/// looked up in the interner.
pub open spec fn finishes_instance(stack: Seq<InitStep>, t: Seq<(ClassKind, BaseClassView)>) -> bool {
    stack.len() > 0 && stack.last() is Finish && t[step_class(stack.last()).0 as int].0 == ClassKind::Instance
}

/// Whether the top step of `stack` finishes `jdk/internal/access/SharedSecrets`.
pub open spec fn finishes_shared_secrets(stack: Seq<InitStep>, t: Seq<(ClassKind, BaseClassView)>, i: ThreadedRodeo) -> bool {
    stack.len() > 0 && stack.last() is Finish && is_shared_secrets(t, step_class(stack.last()), i)
}

/// Whether the step that finishes class `c` can store the stand-in for
/// `javaLangRefAccess`: the class has that static field.
pub open spec fn ref_access_settable(t: Seq<(ClassKind, BaseClassView)>, c: ClassId, i: ThreadedRodeo) -> bool {
    t[c.0 as int].1.static_fields matches Some(m) && m.contains_key(ref_access_key(i))
}

/// Whether `e` is the error of storing the stand-in for `javaLangRefAccess`
/// in class `c`, or of interning the field's name when no memory is left.
pub open spec fn ref_access_error(t: Seq<(ClassKind, BaseClassView)>, c: ClassId, i: ThreadedRodeo, e: JvmError) -> bool {
    ||| e is OutOfMemory
    ||| t[c.0 as int].1.static_fields is None && (e matches JvmError::Todo(s) && s@ == "BaseClass static_fields not set"@)
    ||| t[c.0 as int].1.static_fields is Some && !ref_access_settable(t, c, i) && (e matches JvmError::Todo(s) && s@
        == "No such field"@)
}

proof fn lemma_deps_mono(
    t0: Seq<(ClassKind, BaseClassView)>,
    t1: Seq<(ClassKind, BaseClassView)>,
    c: ClassId,
    k: int,
    e: Option<ClassId>,
)
    requires
        table_wf(t0),
        advanced(t0, t1),
        valid_id(t0, c),
        deps_started(t0, c, k, e),
    ensures
        deps_started(t1, c, k, e),
        interfaces_of(t1, c) == interfaces_of(t0, c),
{
    assert(t1[c.0 as int].1.interfaces == t0[c.0 as int].1.interfaces);
    assert(interfaces_of(t1, c) == interfaces_of(t0, c));
    if t0[c.0 as int].0 != ClassKind::Other {
        assert forall|j: int|
            0 <= j < k && j < interfaces_of(t1, c).len() && needs_init(t1, #[trigger] interfaces_of(t1, c)[j])
                implies started_or(t1, interfaces_of(t1, c)[j], e) by {
            let x = interfaces_of(t0, c)[j];
            assert(valid_id(t0, x));
            assert(t1[x.0 as int].1.clinit == t0[x.0 as int].1.clinit);
            assert(needs_init(t0, interfaces_of(t0, c)[j]));
        }
    }
}

proof fn lemma_deps_resolve(t: Seq<(ClassKind, BaseClassView)>, c: ClassId, k: int, x: ClassId)
    requires
        deps_started(t, c, k, Some(x)),
        started(t, x),
    ensures
        deps_started(t, c, k, None),
{
    if t[c.0 as int].0 != ClassKind::Other {
        assert forall|j: int|
            0 <= j < k && j < interfaces_of(t, c).len() && needs_init(t, #[trigger] interfaces_of(t, c)[j])
                implies started_or(t, interfaces_of(t, c)[j], None) by {
            assert(started_or(t, interfaces_of(t, c)[j], Some(x)));
        }
    }
}

/// The steps below the top keep their order when the top is replaced by
/// `frames` and the classes move from `t0` to `t1`, where no class of a step
/// below the top other than a visit changes state.
proof fn lemma_below_top(
    stack: Seq<InitStep>,
    t0: Seq<(ClassKind, BaseClassView)>,
    t1: Seq<(ClassKind, BaseClassView)>,
    frames: Seq<InitStep>,
)
    requires
        stack.len() > 0,
        stack_wf(stack, t0),
        frames_ok(stack, t0),
        table_wf(t0),
        advanced(t0, t1),
        stack.last() matches InitStep::Visit(x) ==> started(t1, x),
        frames.len() > 0 ==> !(frames[0] is Visit),
        forall|p: int|
            0 <= p < stack.len() - 1 && !(#[trigger] stack[p] is Visit) ==> t1[step_class(stack[p]).0 as int].1.state
                == t0[step_class(stack[p]).0 as int].1.state,
    ensures
        ({
            let s2 = stack.drop_last() + frames;
            forall|p: int|
                0 <= p < stack.len() - 1 ==> {
                    &&& #[trigger] s2[p] == stack[p]
                    &&& frame_ok(s2, p, t1)
                    &&& valid_id(t1, step_class(s2[p]))
                    &&& !(s2[p] is Visit) ==> t1[step_class(s2[p]).0 as int].1.state == ClassState::Initializing
                }
        }),
{
    let s2 = stack.drop_last() + frames;
    let n = stack.len() - 1;
    assert forall|p: int| 0 <= p < n implies {
        &&& #[trigger] s2[p] == stack[p]
        &&& frame_ok(s2, p, t1)
        &&& valid_id(t1, step_class(s2[p]))
        &&& !(s2[p] is Visit) ==> t1[step_class(s2[p]).0 as int].1.state == ClassState::Initializing
    } by {
        assert(s2[p] == stack[p]);
        assert(frame_ok(stack, p, t0));
        assert(valid_id(t0, step_class(stack[p])));
        let pe = pending(stack, p);
        if p + 1 < n {
            assert(s2[p + 1] == stack[p + 1]);
            assert(pending(s2, p) == pe);
        } else {
            assert(pending(s2, p) == None::<ClassId>);
        }
        match stack[p] {
            InitStep::Interfaces(c, k) => {
                lemma_deps_mono(t0, t1, c, k as int, pe);
                if p + 1 == n && pe is Some {
                    lemma_deps_resolve(t1, c, k as int, pe->0);
                }
            },
            InitStep::Clinit(c) => {
                lemma_deps_mono(t0, t1, c, interfaces_of(t0, c).len() as int, pe);
                if p + 1 == n && pe is Some {
                    lemma_deps_resolve(t1, c, interfaces_of(t0, c).len() as int, pe->0);
                }
            },
            InitStep::Finish(c) => {
                lemma_deps_mono(t0, t1, c, interfaces_of(t0, c).len() as int, pe);
                if p + 1 == n && pe is Some {
                    lemma_deps_resolve(t1, c, interfaces_of(t0, c).len() as int, pe->0);
                }
            },
            _ => {},
        }
        if !(stack[p] is Visit) {
            assert(t0[step_class(stack[p]).0 as int].1.state == ClassState::Initializing);
        }
    }
}

/// Whether the classes of `handed` are started, and no step that comes
/// before running a class initializer is about one of them.
pub open spec fn handed_ok(stack: Seq<InitStep>, t: Seq<(ClassKind, BaseClassView)>, handed: Set<ClassId>) -> bool {
    &&& forall|c: ClassId| #[trigger] handed.contains(c) ==> valid_id(t, c) && started(t, c)
    &&& forall|p: int|
        0 <= p < stack.len() && (#[trigger] stack[p] is Super || stack[p] is Interfaces || stack[p] is Clinit)
            ==> !handed.contains(step_class(stack[p]))
}

impl Initializer {
    /// The steps left, the last one first.
    pub closed spec fn steps(&self) -> Seq<InitStep> {
        self.stack@
    }

    /// The class being initialized.
    pub closed spec fn target(&self) -> Option<ClassId> {
        self.target@
    }

    /// The classes whose initializer this initialization has handed out.
    pub closed spec fn handed(&self) -> Set<ClassId> {
        self.handed@
    }

    /// Whether the steps left are in order for the classes `t`.
    pub open spec fn inv(&self, t: Seq<(ClassKind, BaseClassView)>) -> bool {
        &&& stack_wf(self.steps(), t)
        &&& frames_ok(self.steps(), t)
        &&& target_ok(self.steps(), t, self.target())
        &&& handed_ok(self.steps(), t, self.handed())
    }

    /// Starts initializing `class`; with no class there is nothing to do.
    pub fn new(class: Option<ClassId>) -> (r: Initializer)
        ensures
            r.target() == class,
            r.handed() == Set::<ClassId>::empty(),
            r.steps() == match class {
                Some(c) => seq![InitStep::Visit(c)],
                None => Seq::<InitStep>::empty(),
            },
            forall|t: Seq<(ClassKind, BaseClassView)>|
                (class matches Some(c) ==> valid_id(t, c)) ==> #[trigger] r.inv(t),
    {
        let r = match class {
            Some(c) => Initializer { stack: vec![InitStep::Visit(c)], target: Ghost(class), handed: Ghost(Set::empty()) },
            None => Initializer { stack: Vec::new(), target: Ghost(class), handed: Ghost(Set::empty()) },
        };
        proof {
            assert forall|t: Seq<(ClassKind, BaseClassView)>|
                (class matches Some(c) ==> valid_id(t, c)) implies #[trigger] r.inv(t) by {
                if class is Some {
                    assert(frame_ok(r.stack@, 0, t));
                }
            }
        }
        r
    }

    /// Whether no step is left.
    pub fn is_done(&self) -> (r: bool)
        ensures
            r == (self.steps().len() == 0),
    {
        self.stack.len() == 0
    }
}

/// What one successful step of an initialization does, as `step` ensures
/// it, from `i0` to `i1` with the classes `t1` after it and the action `a`:
/// a class initializer is handed out once, for a class whose dependencies
/// are started, and `Done` comes with no step left and the class started.
pub open spec fn init_step(i0: Initializer, i1: Initializer, t1: Seq<(ClassKind, BaseClassView)>, a: InitAction) -> bool {
    &&& i1.target() == i0.target()
    &&& match a {
        InitAction::RunClinit(c, m) => {
            &&& !i0.handed().contains(c)
            &&& i1.handed() == i0.handed().insert(c)
            &&& valid_id(t1, c)
            &&& t1[c.0 as int].1.clinit == Some(m)
            &&& ready(t1, c)
        },
        InitAction::Done => {
            &&& i1.handed() == i0.handed()
            &&& i1.steps().len() == 0
            &&& i1.target() matches Some(g) ==> started(t1, g)
        },
        InitAction::Continue => i1.handed() == i0.handed(),
    }
}

/// Over a whole run of an initialization (`inits[j]` and the action
/// `actions[j]` lead to `inits[j + 1]` with the classes `tables[j + 1]`), no
/// class initializer is handed out twice, each is handed out only once the
/// class's superclass and initialized interfaces are started, and a run
/// that ends with `Done` leaves the class started.
pub proof fn law_init_run(inits: Seq<Initializer>, tables: Seq<Seq<(ClassKind, BaseClassView)>>, actions: Seq<InitAction>)
    requires
        inits.len() == actions.len() + 1,
        tables.len() == inits.len(),
        inits[0].handed() == Set::<ClassId>::empty(),
        forall|j: int| 0 <= j < actions.len() ==> init_step(inits[j], inits[j + 1], tables[j + 1], #[trigger] actions[j]),
    ensures
        forall|j1: int, j2: int|
            0 <= j1 < j2 < actions.len() && #[trigger] actions[j1] is RunClinit && #[trigger] actions[j2] is RunClinit
                ==> actions[j1]->RunClinit_0 != actions[j2]->RunClinit_0,
        forall|j: int|
            0 <= j < actions.len() && #[trigger] actions[j] is RunClinit ==> ready(tables[j + 1], actions[j]->RunClinit_0),
        actions.len() > 0 && actions.last() is Done ==> (inits[0].target() matches Some(g) ==> started(
            tables.last(),
            g,
        )),
{
    lemma_handed_grows(inits, tables, actions, actions.len() as int);
    assert forall|j1: int, j2: int|
        0 <= j1 < j2 < actions.len() && #[trigger] actions[j1] is RunClinit && #[trigger] actions[j2] is RunClinit
            implies actions[j1]->RunClinit_0 != actions[j2]->RunClinit_0 by {
        lemma_handed_grows(inits, tables, actions, j2);
        assert(init_step(inits[j2], inits[j2 + 1], tables[j2 + 1], actions[j2]));
    }
    assert forall|j: int| 0 <= j < actions.len() && #[trigger] actions[j] is RunClinit implies ready(
        tables[j + 1],
        actions[j]->RunClinit_0,
    ) by {
        assert(init_step(inits[j], inits[j + 1], tables[j + 1], actions[j]));
    }
    if actions.len() > 0 && actions.last() is Done {
        lemma_target_kept(inits, tables, actions, actions.len() as int);
        let n = actions.len() - 1;
        assert(init_step(inits[n], inits[n + 1], tables[n + 1], actions[n]));
    }
}

/// Every class handed out before step `k` of a run is in the set handed out
/// at `k`.
proof fn lemma_handed_grows(inits: Seq<Initializer>, tables: Seq<Seq<(ClassKind, BaseClassView)>>, actions: Seq<InitAction>, k: int)
    requires
        inits.len() == actions.len() + 1,
        tables.len() == inits.len(),
        0 <= k <= actions.len(),
        forall|j: int| 0 <= j < actions.len() ==> init_step(inits[j], inits[j + 1], tables[j + 1], #[trigger] actions[j]),
    ensures
        forall|j: int|
            0 <= j < k && #[trigger] actions[j] is RunClinit ==> inits[k].handed().contains(actions[j]->RunClinit_0),
    decreases k,
{
    if k > 0 {
        lemma_handed_grows(inits, tables, actions, k - 1);
        assert(init_step(inits[k - 1], inits[k], tables[k], actions[k - 1]));
    }
}

/// A run keeps the class it initializes.
proof fn lemma_target_kept(inits: Seq<Initializer>, tables: Seq<Seq<(ClassKind, BaseClassView)>>, actions: Seq<InitAction>, k: int)
    requires
        inits.len() == actions.len() + 1,
        tables.len() == inits.len(),
        0 <= k <= actions.len(),
        forall|j: int| 0 <= j < actions.len() ==> init_step(inits[j], inits[j + 1], tables[j + 1], #[trigger] actions[j]),
    ensures
        inits[k].target() == inits[0].target(),
    decreases k,
{
    if k > 0 {
        lemma_target_kept(inits, tables, actions, k - 1);
        assert(init_step(inits[k - 1], inits[k], tables[k], actions[k - 1]));
    }
}

impl Initializer {
    /// Takes the top step: on success the steps, the classes and the action
    /// are those of `next_state`; a step that fails changes nothing. Finishing
    /// a class proper whose name the interner cannot resolve is refused. The
    /// steps stay in order, classes only move forward, a class initializer
    /// is handed out only for a class being initialized whose superclass and
    /// initialized interfaces are started, and `Done` comes once the class
    /// is started.
    #[verifier::rlimit(60)]
    pub fn step(&mut self, table: &mut ClassTable, interner: &ThreadedRodeo) -> (r: Result<InitAction, JvmError>)
        requires
            old(self).inv(old(table).classes()),
            table_wf(old(table).classes()),
        ensures
            final(self).target() == old(self).target(),
            old(self).steps().len() == 0 ==> r == Ok::<InitAction, JvmError>(InitAction::Done)
                && final(self).steps() == old(self).steps() && final(table).classes() == old(table).classes(),
            old(self).steps().len() > 0 ==> match r {
                Ok(a) => (final(self).steps(), final(table).classes(), a) == next_state(
                    old(self).steps(),
                    old(table).classes(),
                    *interner,
                ),
                Err(e) => final(self).steps() == old(self).steps() && final(table).classes() == old(
                    table,
                ).classes(),
            },
            interfaces_missing(old(self).steps(), old(table).classes()) ==> is_todo(
                r,
                "BaseClass interfaces not set"@,
            ),
            finishes_shared_secrets(old(self).steps(), old(table).classes(), *interner) ==> {
                let c = step_class(old(self).steps().last());
                &&& r is Ok ==> ref_access_settable(old(table).classes(), c, *interner)
                &&& r matches Err(e) ==> ref_access_error(old(table).classes(), c, *interner, e) || is_todo(
                    r,
                    "Unknown string symbol"@,
                )
                &&& !ref_access_settable(old(table).classes(), c, *interner) ==> r is Err
            },
            finishes_instance(old(self).steps(), old(table).classes()) && !finishes_shared_secrets(
                old(self).steps(),
                old(table).classes(),
                *interner,
            ) ==> r is Ok || is_todo(r, "Unknown string symbol"@),
            !interfaces_missing(old(self).steps(), old(table).classes()) && !finishes_instance(
                old(self).steps(),
                old(table).classes(),
            ) ==> r is Ok,
            final(self).inv(final(table).classes()),
            table_wf(final(table).classes()),
            advanced(old(table).classes(), final(table).classes()),
            r matches Ok(InitAction::RunClinit(c, m)) ==> {
                &&& valid_id(final(table).classes(), c)
                &&& final(table).classes()[c.0 as int].1.clinit == Some(m)
                &&& final(table).classes()[c.0 as int].1.state == ClassState::Initializing
                &&& ready(final(table).classes(), c)
            },
            r matches Ok(a) ==> init_step(*old(self), *final(self), final(table).classes(), a),
            r == Ok::<InitAction, JvmError>(InitAction::Done) ==> final(self).steps().len() == 0
                && (final(self).target() matches Some(g) ==> started(final(table).classes(), g)),
            match r {
                Ok(InitAction::RunClinit(c, m)) => !old(self).handed().contains(c) && final(self).handed()
                    == old(self).handed().insert(c),
                _ => final(self).handed() == old(self).handed(),
            },
    {
        let n = self.stack.len();
        if n == 0 {
            return Ok(InitAction::Done);
        }
        let top = self.stack[n - 1];
        let ghost s0 = self.stack@;
        let ghost t0 = table.classes();
        proof {
            assert(frame_ok(s0, n - 1, t0));
            assert(pending(s0, n - 1) == None::<ClassId>);
        }
        match top {
            InitStep::Visit(c) => {
                let st = table.get_class_like(c).state();
                if st == ClassState::Initializing || st == ClassState::Initialized {
                    self.stack.pop();
                    proof {
                        lemma_below_top(s0, t0, t0, Seq::empty());
                        assert(self.stack@ =~= s0.drop_last() + Seq::<InitStep>::empty());
                    }
                    Ok(InitAction::Continue)
                } else {
                    let kind = table.kind(c);
                    table.set_state(c, ClassState::Initializing);
                    self.stack.pop();
                    let f = match kind {
                        ClassKind::Instance => InitStep::Super(c),
                        ClassKind::Interface => InitStep::Interfaces(c, 0),
                        ClassKind::Other => InitStep::Finish(c),
                    };
                    self.stack.push(f);
                    proof {
                        let t1 = table.classes();
                        assert(advanced(t0, t1));
                        assert forall|p: int| 0 <= p < s0.len() - 1 && !(#[trigger] s0[p] is Visit) implies t1[step_class(
                            s0[p],
                        ).0 as int].1.state == t0[step_class(s0[p]).0 as int].1.state by {
                            assert(t0[step_class(s0[p]).0 as int].1.state == ClassState::Initializing);
                        }
                        lemma_below_top(s0, t0, t1, seq![f]);
                        assert(self.stack@ =~= s0.drop_last() + seq![f]);
                        assert(frame_ok(self.stack@, n - 1, t1));
                    }
                    Ok(InitAction::Continue)
                }
            },
            InitStep::Super(c) => {
                let sup = table.get_class_like(c).get_super();
                self.stack.pop();
                self.stack.push(InitStep::Interfaces(c, 0));
                match sup {
                    Some(x) => self.stack.push(InitStep::Visit(x)),
                    None => {},
                }
                proof {
                    let frames = match sup {
                        Some(x) => seq![InitStep::Interfaces(c, 0), InitStep::Visit(x)],
                        None => seq![InitStep::Interfaces(c, 0)],
                    };
                    lemma_below_top(s0, t0, t0, frames);
                    assert(self.stack@ =~= s0.drop_last() + frames);
                    assert(frame_ok(self.stack@, n - 1, t0));
                    if sup is Some {
                        assert(frame_ok(self.stack@, n as int, t0));
                    }
                }
                Ok(InitAction::Continue)
            },
            InitStep::Interfaces(c, k) => {
                let ifs = table.get_class_like(c).get_interfaces();
                match ifs {
                    Err(e) => Err(e),
                    Ok(v) => {
                        if k < v.len() {
                            let x = v[k];
                            proof {
                                assert(valid_id(t0, x));
                            }
                            let need = table.get_class_like(x).has_clinit();
                            self.stack.pop();
                            self.stack.push(InitStep::Interfaces(c, k + 1));
                            if need {
                                self.stack.push(InitStep::Visit(x));
                            }
                            proof {
                                let frames = if need {
                                    seq![InitStep::Interfaces(c, (k + 1) as usize), InitStep::Visit(x)]
                                } else {
                                    seq![InitStep::Interfaces(c, (k + 1) as usize)]
                                };
                                lemma_below_top(s0, t0, t0, frames);
                                assert(self.stack@ =~= s0.drop_last() + frames);
                                let e = pending(self.stack@, n - 1);
                                assert(interfaces_of(t0, c) == v@);
                                assert(deps_started(t0, c, k as int, None));
                                if t0[c.0 as int].0 != ClassKind::Other {
                                    assert forall|j: int|
                                        0 <= j < k + 1 && j < interfaces_of(t0, c).len() && needs_init(
                                            t0,
                                            #[trigger] interfaces_of(t0, c)[j],
                                        ) implies started_or(t0, interfaces_of(t0, c)[j], e) by {
                                        if j < k {
                                            assert(started_or(t0, interfaces_of(t0, c)[j], None));
                                        }
                                    }
                                }
                                assert(frame_ok(self.stack@, n - 1, t0));
                                if need {
                                    assert(frame_ok(self.stack@, n as int, t0));
                                }
                            }
                            Ok(InitAction::Continue)
                        } else {
                            self.stack.pop();
                            self.stack.push(InitStep::Clinit(c));
                            proof {
                                lemma_below_top(s0, t0, t0, seq![InitStep::Clinit(c)]);
                                assert(self.stack@ =~= s0.drop_last() + seq![InitStep::Clinit(c)]);
                                assert(frame_ok(self.stack@, n - 1, t0));
                            }
                            Ok(InitAction::Continue)
                        }
                    },
                }
            },
            InitStep::Clinit(c) => {
                let m = table.get_class_like(c).get_clinit_method_id();
                self.stack.pop();
                self.stack.push(InitStep::Finish(c));
                proof {
                    lemma_below_top(s0, t0, t0, seq![InitStep::Finish(c)]);
                    assert(self.stack@ =~= s0.drop_last() + seq![InitStep::Finish(c)]);
                    assert(frame_ok(self.stack@, n - 1, t0));
                }
                match m {
                    Some(m) => {
                        self.handed = Ghost(self.handed@.insert(c));
                        proof {
                            assert(forall|p: int|
                                0 <= p < s0.len() - 1 && !(#[trigger] s0[p] is Visit) ==> step_class(s0[p]) != c);
                        }
                        Ok(InitAction::RunClinit(c, m))
                    },
                    None => Ok(InitAction::Continue),
                }
            },
            InitStep::Finish(c) => {
                let kind = table.kind(c);
                let shared_secrets = if kind == ClassKind::Instance {
                    let name = table.get_class_like(c).name();
                    match resolve(interner, name) {
                        Some(text) => text == "jdk/internal/access/SharedSecrets".to_string(),
                        None => return Err(JvmError::Todo("Unknown string symbol".to_string())),
                    }
                } else {
                    false
                };
                if shared_secrets {
                    let name = match intern(interner, "javaLangRefAccess") {
                        Some(k) => k,
                        None => return Err(JvmError::OutOfMemory),
                    };
                    let desc = match intern(interner, "Ljdk/internal/access/JavaLangRefAccess;") {
                        Some(k) => k,
                        None => return Err(JvmError::OutOfMemory),
                    };
                    let fk = FieldKey { name, desc };
                    proof {
                        assert(interned_strings(*interner).contains_key(name));
                        assert(interned_strings(*interner).contains_key(desc));
                        assert(fk == ref_access_key(*interner));
                    }
                    match table.set_static_field_value(c, &fk, Value::Ref(0)) {
                        Ok(()) => {},
                        Err(e) => return Err(e),
                    }
                }
                let ghost t_mid = table.classes();
                table.set_state(c, ClassState::Initialized);
                self.stack.pop();
                proof {
                    let t1 = table.classes();
                    assert(t_mid.len() == t0.len());
                    assert(advanced(t0, t1));
                    assert forall|p: int| 0 <= p < s0.len() - 1 && !(#[trigger] s0[p] is Visit) implies t1[step_class(
                        s0[p],
                    ).0 as int].1.state == t0[step_class(s0[p]).0 as int].1.state by {
                        assert(step_class(s0[p]) != step_class(s0[n - 1]));
                    }
                    lemma_below_top(s0, t0, t1, Seq::empty());
                    assert(self.stack@ =~= s0.drop_last() + Seq::<InitStep>::empty());
                }
                Ok(InitAction::Continue)
            },
        }
    }
}

} // verus!
