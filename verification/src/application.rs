//! The registration tree and its lifecycle.
//!
//! An application owns a tree of services, characteristics and
//! descriptors.  Registering it publishes one object per declared node,
//! in declaration order, at paths `root/serviceI/charJ/descK`, and then
//! asks the daemon to take the tree up.  The opaque handle returned
//! supports exactly one operation — release — which, exactly once, asks
//! the daemon to let the tree go and removes every published node,
//! children first and the root last.  The embedding layer performs the
//! object insertions, the daemon calls and the removals; every path,
//! every ordering and the once-only release decision are computed and
//! proved here.

use vstd::prelude::*;
use vstd::string::*;
use crate::characteristic::{spec_collapse, Characteristic, RegisteredCharacteristic};
use crate::descriptor::RegisteredDescriptor;
use crate::objpath::{is_path_element_char, lemma_append_element_valid, spec_valid_object_path};
use crate::service::{RegisteredService, Service};
use crate::text::{format_decimal, lemma_decimal_chars_are_digits, spec_decimal};
use crate::uuidfmt::{format_uuid_simple, fresh_uuid, spec_uuid_simple};

verus! {

/// The place of one published object in the attribute tree.
#[derive(Clone, Copy, Debug, PartialEq, Eq, Structural)]
pub enum AttributePath {
    /// The object-manager root of the published tree.
    Root,
    /// The service at this declared position.
    Service(usize),
    /// The characteristic at this position within its service.
    Characteristic(usize, usize),
    /// The descriptor at this position within its characteristic.
    Descriptor(usize, usize, usize),
}

/// Local application: the attribute tree to publish.
pub struct Application {
    /// Services to publish, in declaration order.
    pub services: Vec<Service>,
}

impl Application {
    /// Every declared service is well-formed.
    pub open spec fn wf(&self) -> bool {
        forall|i: int| 0 <= i < self.services@.len() ==> (#[trigger] self.services@[i]).wf()
    }
}

/// The tree places of one characteristic's descriptors, in declaration
/// order.
pub open spec fn spec_desc_block(i: int, j: int, ndesc: int) -> Seq<AttributePath> {
    Seq::new(
        ndesc as nat,
        |k: int| AttributePath::Descriptor(i as usize, j as usize, k as usize),
    )
}

/// The tree places of one characteristic and everything below it.
pub open spec fn spec_char_block(i: int, j: int, c: Characteristic) -> Seq<AttributePath> {
    seq![AttributePath::Characteristic(i as usize, j as usize)] + spec_desc_block(
        i,
        j,
        c.descriptors@.len() as int,
    )
}

/// The tree places of the first `n` characteristics of service `i` and
/// everything below them.
pub open spec fn spec_chars_plan(i: int, chars: Seq<Characteristic>, n: int) -> Seq<AttributePath>
    decreases n,
{
    if n <= 0 {
        Seq::empty()
    } else {
        spec_chars_plan(i, chars, n - 1) + spec_char_block(i, n - 1, chars[n - 1])
    }
}

/// The tree places of one service and everything below it.
pub open spec fn spec_service_block(i: int, s: Service) -> Seq<AttributePath> {
    seq![AttributePath::Service(i as usize)] + spec_chars_plan(
        i,
        s.characteristics@,
        s.characteristics@.len() as int,
    )
}

/// The tree places of the first `n` services and everything below them.
pub open spec fn spec_services_plan(svcs: Seq<Service>, n: int) -> Seq<AttributePath>
    decreases n,
{
    if n <= 0 {
        Seq::empty()
    } else {
        spec_services_plan(svcs, n - 1) + spec_service_block(n - 1, svcs[n - 1])
    }
}

/// The publish plan of an application: the root first, then each
/// service's subtree in declaration order, depth first.
pub open spec fn spec_plan(app: Application) -> Seq<AttributePath> {
    seq![AttributePath::Root] + spec_services_plan(app.services@, app.services@.len() as int)
}

/// The object path at which a tree place is published.
pub open spec fn spec_node_path(root: Seq<char>, p: AttributePath) -> Seq<char> {
    match p {
        AttributePath::Root => root,
        AttributePath::Service(i) => root + "/service"@ + spec_decimal(i as nat),
        AttributePath::Characteristic(i, j) => root + "/service"@ + spec_decimal(i as nat)
            + "/char"@ + spec_decimal(j as nat),
        AttributePath::Descriptor(i, j, k) => root + "/service"@ + spec_decimal(i as nat)
            + "/char"@ + spec_decimal(j as nat) + "/desc"@ + spec_decimal(k as nat),
    }
}

/// One published node: its object path and the registered object that
/// the embedding layer exports there.
pub struct RegisteredNode {
    /// The object path of this node.
    pub path: String,
    /// The object published at that path.
    pub object: RegisteredObject,
}

/// The object published at one node of the tree.
pub enum RegisteredObject {
    /// The object-manager root.
    Root,
    /// A registered service.
    Service(RegisteredService),
    /// A registered characteristic.
    Characteristic(RegisteredCharacteristic),
    /// A registered descriptor.
    Descriptor(RegisteredDescriptor),
}

/// A registered service carries the declared service with its
/// characteristics moved out into their own nodes.
pub open spec fn spec_stripped_service(orig: Service, got: Service) -> bool {
    &&& got.uuid == orig.uuid
    &&& got.handle == orig.handle
    &&& got.primary == orig.primary
    &&& got.characteristics@.len() == 0
    &&& got.control_handle == orig.control_handle
}

/// A registered characteristic carries the declared characteristic with
/// its descriptors moved out and its capabilities collapsed.
pub open spec fn spec_stripped_characteristic(orig: Characteristic, got: Characteristic) -> bool {
    let bare = Characteristic { descriptors: got.descriptors, ..orig };
    &&& got == spec_collapse(bare)
    &&& got.descriptors@.len() == 0
}

/// The published object at a tree place is the declared attribute at
/// that place, in registered form.
pub open spec fn spec_object_matches(app: Application, p: AttributePath, o: RegisteredObject) -> bool {
    match p {
        AttributePath::Root => o is Root,
        AttributePath::Service(i) => o matches RegisteredObject::Service(rs)
            && spec_stripped_service(app.services@[i as int], rs.s),
        AttributePath::Characteristic(i, j) => o matches RegisteredObject::Characteristic(rc)
            && spec_stripped_characteristic(
            app.services@[i as int].characteristics@[j as int],
            rc.c,
        ),
        AttributePath::Descriptor(i, j, k) => o matches RegisteredObject::Descriptor(rd)
            && rd.d == app.services@[i as int].characteristics@[j as int].descriptors@[k as int],
    }
}

/// One step of tearing a published tree down.
#[derive(Debug)]
pub enum TeardownStep {
    /// Ask the daemon to let the tree at the handle's root path go.
    Unregister,
    /// Remove the published object at this path.
    Remove(String),
}

/// The teardown steps a release produces: nothing on an already released
/// handle; otherwise the unregister call first, then the removal of
/// every published node in reverse publish order — children before their
/// parents, the root last.
pub open spec fn spec_release_steps(h: ApplicationHandle) -> Seq<TeardownStep> {
    if h.released {
        Seq::empty()
    } else {
        seq![TeardownStep::Unregister] + Seq::new(
            h.reg_paths@.len(),
            |m: int| TeardownStep::Remove(h.reg_paths@[h.reg_paths@.len() - 1 - m]),
        )
    }
}

/// The removal steps a rollback produces: every published node in
/// reverse publish order, with no unregister call.
pub open spec fn spec_rollback_steps(h: ApplicationHandle) -> Seq<TeardownStep> {
    if h.released {
        Seq::empty()
    } else {
        Seq::new(
            h.reg_paths@.len(),
            |m: int| TeardownStep::Remove(h.reg_paths@[h.reg_paths@.len() - 1 - m]),
        )
    }
}

/// A handle after its release.
pub open spec fn spec_released(h: ApplicationHandle) -> ApplicationHandle {
    ApplicationHandle { released: true, ..h }
}

/// Local application published over the bus.
///
/// Its only operation is release, which unpublishes the tree exactly
/// once.
pub struct ApplicationHandle {
    /// The root path of the published tree.
    pub name: String,
    /// Paths of every published node, in publish order, the root first.
    pub reg_paths: Vec<String>,
    /// Whether the handle has already been released.
    pub released: bool,
}

impl ApplicationHandle {
    /// Releases the handle.  The first release yields the teardown
    /// steps, in order: the unregister call, then the removal of every
    /// node, children first and the root last.  Any further release
    /// yields nothing and changes nothing.
    pub fn release(&mut self) -> (steps: Vec<TeardownStep>)
        ensures
            steps@ == spec_release_steps(*old(self)),
            *final(self) == spec_released(*old(self)),
    {
        if self.released {
            let steps: Vec<TeardownStep> = Vec::new();
            assert(steps@ =~= spec_release_steps(*old(self)));
            return steps;
        }
        self.released = true;
        let mut steps: Vec<TeardownStep> = Vec::new();
        steps.push(TeardownStep::Unregister);
        let n = self.reg_paths.len();
        let mut t: usize = n;
        while t > 0
            invariant
                t <= n,
                n == self.reg_paths@.len(),
                *self == spec_released(*old(self)),
                steps@.len() == 1 + (n - t),
                steps@[0] == TeardownStep::Unregister,
                forall|m: int|
                    1 <= m < steps@.len() ==> #[trigger] steps@[m] == TeardownStep::Remove(
                        self.reg_paths@[n - m],
                    ),
            decreases t,
        {
            t = t - 1;
            let p = self.reg_paths[t].clone();
            steps.push(TeardownStep::Remove(p));
        }
        assert(steps@ =~= spec_release_steps(*old(self)));
        steps
    }

    /// Rolls a failed registration back: yields the removal of every
    /// published node, children first and the root last, and consumes
    /// the handle's one release.
    pub fn rollback(&mut self) -> (steps: Vec<TeardownStep>)
        ensures
            steps@ == spec_rollback_steps(*old(self)),
            *final(self) == spec_released(*old(self)),
    {
        if self.released {
            let steps: Vec<TeardownStep> = Vec::new();
            assert(steps@ =~= spec_rollback_steps(*old(self)));
            return steps;
        }
        self.released = true;
        let mut steps: Vec<TeardownStep> = Vec::new();
        let n = self.reg_paths.len();
        let mut t: usize = n;
        while t > 0
            invariant
                t <= n,
                n == self.reg_paths@.len(),
                *self == spec_released(*old(self)),
                steps@.len() == n - t,
                forall|m: int|
                    0 <= m < steps@.len() ==> #[trigger] steps@[m] == TeardownStep::Remove(
                        self.reg_paths@[n - 1 - m],
                    ),
            decreases t,
        {
            t = t - 1;
            let p = self.reg_paths[t].clone();
            steps.push(TeardownStep::Remove(p));
        }
        assert(steps@ =~= spec_rollback_steps(*old(self)));
        steps
    }
}

impl Application {
    /// Publishes the attribute tree under the given root path: one
    /// registered object per declared node, in declaration order, at
    /// paths `root/serviceI/charJ/descK`, together with the handle whose
    /// release tears everything down again.
    pub fn register_at(self, root: String) -> (r: (Vec<RegisteredNode>, ApplicationHandle))
        ensures
            r.0@.len() == spec_plan(self).len(),
            forall|m: int|
                0 <= m < r.0@.len() ==> (#[trigger] r.0@[m]).path@ == spec_node_path(
                    root@,
                    spec_plan(self)[m],
                ),
            forall|m: int|
                0 <= m < r.0@.len() ==> spec_object_matches(
                    self,
                    spec_plan(self)[m],
                    (#[trigger] r.0@[m]).object,
                ),
            !r.1.released,
            r.1.name == root,
            r.1.reg_paths@.len() == r.0@.len(),
            forall|m: int|
                0 <= m < r.0@.len() ==> (#[trigger] r.1.reg_paths@[m])@ == r.0@[m].path@,
    {
        let ghost app0 = self;
        let mut nodes: Vec<RegisteredNode> = Vec::new();
        let mut reg_paths: Vec<String> = Vec::new();
        let ghost mut plan: Seq<AttributePath> = Seq::empty();

        nodes.push(RegisteredNode { path: root.clone(), object: RegisteredObject::Root });
        reg_paths.push(root.clone());
        proof {
            plan = plan.push(AttributePath::Root);
            assert(plan =~= seq![AttributePath::Root] + spec_services_plan(app0.services@, 0));
        }

        let mut services = self.services;
        let ghost osvcs = app0.services@;
        let nsvc = services.len();
        proof {
            assert(osvcs.len() == nsvc as int);
        }
        let mut i: usize = 0;
        while services.len() > 0
            invariant
                osvcs.len() <= usize::MAX,
                i + services@.len() == osvcs.len(),
                services@ == osvcs.subrange(i as int, osvcs.len() as int),
                plan == seq![AttributePath::Root] + spec_services_plan(osvcs, i as int),
                nodes@.len() == plan.len(),
                reg_paths@.len() == plan.len(),
                osvcs == app0.services@,
                forall|m: int|
                    0 <= m < plan.len() ==> (#[trigger] nodes@[m]).path@ == spec_node_path(
                        root@,
                        plan[m],
                    ),
                forall|m: int|
                    0 <= m < plan.len() ==> spec_object_matches(
                        app0,
                        plan[m],
                        (#[trigger] nodes@[m]).object,
                    ),
                forall|m: int|
                    0 <= m < plan.len() ==> (#[trigger] reg_paths@[m])@ == nodes@[m].path@,
            decreases services@.len(),
        {
            let s = services.remove(0);
            proof {
                assert(s == osvcs[i as int]);
                assert(services@ == osvcs.subrange(i + 1, osvcs.len() as int));
            }
            let Service { uuid, handle, primary, characteristics, control_handle } = s;
            let mut chars = characteristics;
            let ghost ochars = osvcs[i as int].characteristics@;
            let stripped = Service {
                uuid,
                handle,
                primary,
                characteristics: Vec::new(),
                control_handle,
            };
            let rs = RegisteredService::new(stripped);
            let mut spath = root.clone();
            spath.append("/service");
            let sidx = format_decimal(i as u64);
            spath.append(sidx.as_str());
            assert(spath@ =~= root@ + "/service"@ + spec_decimal(i as nat));
            nodes.push(RegisteredNode { path: spath.clone(), object: RegisteredObject::Service(rs) });
            reg_paths.push(spath.clone());
            proof {
                plan = plan.push(AttributePath::Service(i));
            }

            let nch = chars.len();
            proof {
                assert(ochars.len() == nch as int);
            }
            let mut j: usize = 0;
            while chars.len() > 0
                invariant
                    ochars.len() <= usize::MAX,
                    j + chars@.len() == ochars.len(),
                    chars@ == ochars.subrange(j as int, ochars.len() as int),
                    i < osvcs.len(),
                    osvcs == app0.services@,
                    ochars == osvcs[i as int].characteristics@,
                    plan == seq![AttributePath::Root] + spec_services_plan(osvcs, i as int) + seq![
                        AttributePath::Service(i),
                    ] + spec_chars_plan(i as int, ochars, j as int),
                    nodes@.len() == plan.len(),
                    reg_paths@.len() == plan.len(),
                    spath@ == root@ + "/service"@ + spec_decimal(i as nat),
                    forall|m: int|
                        0 <= m < plan.len() ==> (#[trigger] nodes@[m]).path@ == spec_node_path(
                            root@,
                            plan[m],
                        ),
                    forall|m: int|
                        0 <= m < plan.len() ==> spec_object_matches(
                            app0,
                            plan[m],
                            (#[trigger] nodes@[m]).object,
                        ),
                    forall|m: int|
                        0 <= m < plan.len() ==> (#[trigger] reg_paths@[m])@ == nodes@[m].path@,
                decreases chars@.len(),
            {
                let c = chars.remove(0);
                proof {
                    assert(c == ochars[j as int]);
                    assert(chars@ == ochars.subrange(j + 1, ochars.len() as int));
                }
                let Characteristic {
                    uuid,
                    handle,
                    broadcast,
                    writable_auxiliaries,
                    authorize,
                    descriptors,
                    read,
                    write,
                    notify,
                    control_handle,
                } = c;
                let mut descs = descriptors;
                let ghost odescs = ochars[j as int].descriptors@;
                let bare = Characteristic {
                    uuid,
                    handle,
                    broadcast,
                    writable_auxiliaries,
                    authorize,
                    descriptors: Vec::new(),
                    read,
                    write,
                    notify,
                    control_handle,
                };
                let rc = RegisteredCharacteristic::new(bare);
                let mut cpath = spath.clone();
                cpath.append("/char");
                let cidx = format_decimal(j as u64);
                cpath.append(cidx.as_str());
                assert(cpath@ =~= root@ + "/service"@ + spec_decimal(i as nat) + "/char"@
                    + spec_decimal(j as nat));
                nodes.push(
                    RegisteredNode {
                        path: cpath.clone(),
                        object: RegisteredObject::Characteristic(rc),
                    },
                );
                reg_paths.push(cpath.clone());
                proof {
                    plan = plan.push(AttributePath::Characteristic(i, j));
                    assert(spec_object_matches(
                        app0,
                        AttributePath::Characteristic(i, j),
                        nodes@.last().object,
                    ));
                }

                let nde = descs.len();
                proof {
                    assert(odescs.len() == nde as int);
                }
                let mut k: usize = 0;
                while descs.len() > 0
                    invariant
                        odescs.len() <= usize::MAX,
                        k + descs@.len() == odescs.len(),
                        descs@ == odescs.subrange(k as int, odescs.len() as int),
                        i < osvcs.len(),
                        osvcs == app0.services@,
                        ochars == osvcs[i as int].characteristics@,
                        j < ochars.len(),
                        odescs == ochars[j as int].descriptors@,
                        plan == seq![AttributePath::Root] + spec_services_plan(osvcs, i as int)
                            + seq![AttributePath::Service(i)] + spec_chars_plan(
                            i as int,
                            ochars,
                            j as int,
                        ) + seq![AttributePath::Characteristic(i, j)] + spec_desc_block(
                            i as int,
                            j as int,
                            k as int,
                        ),
                        nodes@.len() == plan.len(),
                        reg_paths@.len() == plan.len(),
                        spath@ == root@ + "/service"@ + spec_decimal(i as nat),
                        cpath@ == root@ + "/service"@ + spec_decimal(i as nat) + "/char"@
                            + spec_decimal(j as nat),
                        forall|m: int|
                            0 <= m < plan.len() ==> (#[trigger] nodes@[m]).path@ == spec_node_path(
                                root@,
                                plan[m],
                            ),
                        forall|m: int|
                            0 <= m < plan.len() ==> spec_object_matches(
                                app0,
                                plan[m],
                                (#[trigger] nodes@[m]).object,
                            ),
                        forall|m: int|
                            0 <= m < plan.len() ==> (#[trigger] reg_paths@[m])@ == nodes@[m].path@,
                    decreases descs@.len(),
                {
                    let d = descs.remove(0);
                    proof {
                        assert(d == odescs[k as int]);
                        assert(descs@ == odescs.subrange(k + 1, odescs.len() as int));
                    }
                    let rd = RegisteredDescriptor::new(d);
                    let mut dpath = cpath.clone();
                    dpath.append("/desc");
                    let didx = format_decimal(k as u64);
                    dpath.append(didx.as_str());
                    assert(dpath@ =~= root@ + "/service"@ + spec_decimal(i as nat) + "/char"@
                        + spec_decimal(j as nat) + "/desc"@ + spec_decimal(k as nat));
                    nodes.push(
                        RegisteredNode {
                            path: dpath.clone(),
                            object: RegisteredObject::Descriptor(rd),
                        },
                    );
                    reg_paths.push(dpath);
                    proof {
                        plan = plan.push(AttributePath::Descriptor(i, j, k));
                        assert(spec_desc_block(i as int, j as int, k + 1) =~= spec_desc_block(
                            i as int,
                            j as int,
                            k as int,
                        ).push(AttributePath::Descriptor(i, j, k)));
                        assert(plan =~= seq![AttributePath::Root] + spec_services_plan(
                            osvcs,
                            i as int,
                        ) + seq![AttributePath::Service(i)] + spec_chars_plan(
                            i as int,
                            ochars,
                            j as int,
                        ) + seq![AttributePath::Characteristic(i, j)] + spec_desc_block(
                            i as int,
                            j as int,
                            k + 1,
                        ));
                    }
                    k = k + 1;
                }
                proof {
                    assert(spec_char_block(i as int, j as int, ochars[j as int]) =~= seq![
                        AttributePath::Characteristic(i, j),
                    ] + spec_desc_block(i as int, j as int, odescs.len() as int));
                    assert(plan =~= seq![AttributePath::Root] + spec_services_plan(osvcs, i as int)
                        + seq![AttributePath::Service(i)] + spec_chars_plan(
                        i as int,
                        ochars,
                        j + 1,
                    ));
                }
                j = j + 1;
            }
            proof {
                assert(spec_service_block(i as int, osvcs[i as int]) =~= seq![
                    AttributePath::Service(i),
                ] + spec_chars_plan(i as int, ochars, ochars.len() as int));
                assert(plan =~= seq![AttributePath::Root] + spec_services_plan(osvcs, i + 1));
            }
            i = i + 1;
        }
        proof {
            assert(osvcs.subrange(i as int, osvcs.len() as int).len() == 0);
            assert(i as int == osvcs.len());
            assert(plan == spec_plan(app0));
        }
        let handle = ApplicationHandle { name: root, reg_paths, released: false };
        (nodes, handle)
    }

    /// Publishes the attribute tree under a freshly generated root path
    /// and hands back the published nodes with the release handle.
    pub fn register(self) -> (r: (Vec<RegisteredNode>, ApplicationHandle))
        ensures
            r.0@.len() == spec_plan(self).len(),
            forall|m: int|
                0 <= m < r.0@.len() ==> (#[trigger] r.0@[m]).path@ == spec_node_path(
                    r.1.name@,
                    spec_plan(self)[m],
                ),
            forall|m: int|
                0 <= m < r.0@.len() ==> spec_object_matches(
                    self,
                    spec_plan(self)[m],
                    (#[trigger] r.0@[m]).object,
                ),
            !r.1.released,
            r.1.reg_paths@.len() == r.0@.len(),
            forall|m: int|
                0 <= m < r.0@.len() ==> (#[trigger] r.1.reg_paths@[m])@ == r.0@[m].path@,
            (exists|u: u128|
                r.1.name@ == "/io/crates/tokio_bluez/gatt/app/"@ + spec_uuid_simple(u)),
    {
        let u = fresh_uuid();
        let mut root = String::from_str("/io/crates/tokio_bluez/gatt/app/");
        let tail = format_uuid_simple(u);
        root.append(tail.as_str());
        proof {
            assert(root@ == "/io/crates/tokio_bluez/gatt/app/"@ + spec_uuid_simple(u));
        }
        self.register_at(root)
    }
}

/// Whether a tree place is declared by the application.
pub open spec fn spec_declared(app: Application, p: AttributePath) -> bool {
    match p {
        AttributePath::Root => true,
        AttributePath::Service(i) => (i as int) < app.services@.len(),
        AttributePath::Characteristic(i, j) => (i as int) < app.services@.len() && (j as int)
            < app.services@[i as int].characteristics@.len(),
        AttributePath::Descriptor(i, j, k) => (i as int) < app.services@.len() && (j as int)
            < app.services@[i as int].characteristics@.len() && (k as int)
            < app.services@[i as int].characteristics@[j as int].descriptors@.len(),
    }
}

/// How often a tree place occurs among one characteristic's descriptor
/// places.
proof fn lemma_desc_block_count(i: int, j: int, n: int, p: AttributePath)
    requires
        0 <= i <= usize::MAX,
        0 <= j <= usize::MAX,
        0 <= n <= usize::MAX,
    ensures
        spec_desc_block(i, j, n).to_multiset().count(p) == (if p matches AttributePath::Descriptor(
            pi,
            pj,
            pk,
        ) && pi == i as usize && pj == j as usize && (pk as int) < n {
            1nat
        } else {
            0nat
        }),
    decreases n,
{
    broadcast use vstd::seq_lib::group_to_multiset_ensures;

    if n == 0 {
        assert(spec_desc_block(i, j, 0) =~= Seq::<AttributePath>::empty());
        assert(Seq::<AttributePath>::empty().to_multiset().count(p) == 0);
    } else {
        lemma_desc_block_count(i, j, n - 1, p);
        assert(spec_desc_block(i, j, n) =~= spec_desc_block(i, j, n - 1).push(
            AttributePath::Descriptor(i as usize, j as usize, (n - 1) as usize),
        ));
    }
}

/// How often a tree place occurs in one characteristic's subtree.
proof fn lemma_char_block_count(i: int, j: int, c: Characteristic, p: AttributePath)
    requires
        0 <= i <= usize::MAX,
        0 <= j <= usize::MAX,
    ensures
        spec_char_block(i, j, c).to_multiset().count(p) == (if (p matches
            AttributePath::Characteristic(pi, pj) && pi == i as usize && pj == j as usize) || (
        p matches AttributePath::Descriptor(pi, pj, pk) && pi == i as usize && pj == j as usize
            && (pk as int) < c.descriptors@.len()) {
            1nat
        } else {
            0nat
        }),
{
    broadcast use vstd::seq_lib::group_to_multiset_ensures;

    broadcast use vstd::std_specs::vec::axiom_spec_len;

    assert(vstd::std_specs::vec::spec_vec_len(&c.descriptors) == c.descriptors@.len());
    let head = seq![AttributePath::Characteristic(i as usize, j as usize)];
    let tail = spec_desc_block(i, j, c.descriptors@.len() as int);
    vstd::seq_lib::lemma_multiset_commutative(head, tail);
    assert(head =~= Seq::<AttributePath>::empty().push(
        AttributePath::Characteristic(i as usize, j as usize),
    ));
    lemma_desc_block_count(i, j, c.descriptors@.len() as int, p);
}

/// How often a tree place occurs among the subtrees of the first `n`
/// characteristics of service `i`.
proof fn lemma_chars_plan_count(i: int, chars: Seq<Characteristic>, n: int, p: AttributePath)
    requires
        0 <= i <= usize::MAX,
        0 <= n <= chars.len(),
        n <= usize::MAX,
    ensures
        spec_chars_plan(i, chars, n).to_multiset().count(p) == (if (p matches
            AttributePath::Characteristic(pi, pj) && pi == i as usize && (pj as int) < n) || (
        p matches AttributePath::Descriptor(pi, pj, pk) && pi == i as usize && (pj as int) < n
            && (pk as int) < chars[pj as int].descriptors@.len()) {
            1nat
        } else {
            0nat
        }),
    decreases n,
{
    broadcast use vstd::seq_lib::group_to_multiset_ensures;

    if n == 0 {
        assert(spec_chars_plan(i, chars, 0) =~= Seq::<AttributePath>::empty());
    } else {
        lemma_chars_plan_count(i, chars, n - 1, p);
        vstd::seq_lib::lemma_multiset_commutative(
            spec_chars_plan(i, chars, n - 1),
            spec_char_block(i, n - 1, chars[n - 1]),
        );
        lemma_char_block_count(i, n - 1, chars[n - 1], p);
    }
}

/// How often a tree place occurs among the subtrees of the first `n`
/// services.
proof fn lemma_services_plan_count(svcs: Seq<Service>, n: int, p: AttributePath)
    requires
        0 <= n <= svcs.len(),
        n <= usize::MAX,
    ensures
        spec_services_plan(svcs, n).to_multiset().count(p) == (if (p matches
            AttributePath::Service(pi) && (pi as int) < n) || (p matches
            AttributePath::Characteristic(pi, pj) && (pi as int) < n && (pj as int)
            < svcs[pi as int].characteristics@.len()) || (p matches AttributePath::Descriptor(
            pi,
            pj,
            pk,
        ) && (pi as int) < n && (pj as int) < svcs[pi as int].characteristics@.len() && (
        pk as int) < svcs[pi as int].characteristics@[pj as int].descriptors@.len()) {
            1nat
        } else {
            0nat
        }),
    decreases n,
{
    broadcast use vstd::seq_lib::group_to_multiset_ensures;

    if n == 0 {
        assert(spec_services_plan(svcs, 0) =~= Seq::<AttributePath>::empty());
    } else {
        broadcast use vstd::std_specs::vec::axiom_spec_len;

        lemma_services_plan_count(svcs, n - 1, p);
        vstd::seq_lib::lemma_multiset_commutative(
            spec_services_plan(svcs, n - 1),
            spec_service_block(n - 1, svcs[n - 1]),
        );
        let s = svcs[n - 1];
        assert(vstd::std_specs::vec::spec_vec_len(&s.characteristics) == s.characteristics@.len());
        let head = seq![AttributePath::Service((n - 1) as usize)];
        let tail = spec_chars_plan(n - 1, s.characteristics@, s.characteristics@.len() as int);
        vstd::seq_lib::lemma_multiset_commutative(head, tail);
        assert(head =~= Seq::<AttributePath>::empty().push(
            AttributePath::Service((n - 1) as usize),
        ));
        lemma_chars_plan_count(n - 1, s.characteristics@, s.characteristics@.len() as int, p);
    }
}

/// Law: the publish plan holds exactly one object per declared service,
/// characteristic and descriptor (and the root), and nothing else.
pub proof fn lemma_plan_exactly_one(app: Application, p: AttributePath)
    ensures
        spec_plan(app).to_multiset().count(p) == (if spec_declared(app, p) {
            1nat
        } else {
            0nat
        }),
{
    broadcast use vstd::seq_lib::group_to_multiset_ensures;
    broadcast use vstd::std_specs::vec::axiom_spec_len;

    assert(vstd::std_specs::vec::spec_vec_len(&app.services) == app.services@.len());
    let head = seq![AttributePath::Root];
    let tail = spec_services_plan(app.services@, app.services@.len() as int);
    vstd::seq_lib::lemma_multiset_commutative(head, tail);
    assert(head =~= Seq::<AttributePath>::empty().push(AttributePath::Root));
    lemma_services_plan_count(app.services@, app.services@.len() as int, p);
}

/// Law: the publish plan never repeats a tree place.
pub proof fn lemma_plan_no_duplicates(app: Application)
    ensures
        spec_plan(app).no_duplicates(),
{
    assert forall|x: AttributePath| spec_plan(app).to_multiset().count(x) <= 1 by {
        lemma_plan_exactly_one(app, x);
    }
    spec_plan(app).lemma_multiset_has_no_duplicates_conv();
}

/// The number of tree places in one characteristic's subtree.
pub open spec fn spec_char_size(c: Characteristic) -> int {
    1 + c.descriptors@.len() as int
}

/// The number of tree places in the subtrees of the first `n`
/// characteristics.
pub open spec fn spec_chars_size(chars: Seq<Characteristic>, n: int) -> int
    decreases n,
{
    if n <= 0 {
        0
    } else {
        spec_chars_size(chars, n - 1) + spec_char_size(chars[n - 1])
    }
}

/// The number of tree places in one service's subtree.
pub open spec fn spec_service_size(s: Service) -> int {
    1 + spec_chars_size(s.characteristics@, s.characteristics@.len() as int)
}

/// The number of tree places in the subtrees of the first `n` services.
pub open spec fn spec_services_size(svcs: Seq<Service>, n: int) -> int
    decreases n,
{
    if n <= 0 {
        0
    } else {
        spec_services_size(svcs, n - 1) + spec_service_size(svcs[n - 1])
    }
}

/// The position of a declared tree place in the publish plan: the root
/// opens the plan, every earlier subtree precedes a service, and within
/// a subtree parents precede their children.
pub open spec fn spec_pos(app: Application, p: AttributePath) -> int {
    match p {
        AttributePath::Root => 0,
        AttributePath::Service(i) => 1 + spec_services_size(app.services@, i as int),
        AttributePath::Characteristic(i, j) => 2 + spec_services_size(app.services@, i as int)
            + spec_chars_size(app.services@[i as int].characteristics@, j as int),
        AttributePath::Descriptor(i, j, k) => 3 + spec_services_size(app.services@, i as int)
            + spec_chars_size(app.services@[i as int].characteristics@, j as int) + k,
    }
}

/// A characteristic subtree plan is as long as its size says.
proof fn lemma_chars_plan_len(i: int, chars: Seq<Characteristic>, n: int)
    requires
        0 <= n,
    ensures
        spec_chars_plan(i, chars, n).len() == spec_chars_size(chars, n),
    decreases n,
{
    if n > 0 {
        lemma_chars_plan_len(i, chars, n - 1);
    }
}

/// A services plan is as long as its size says.
proof fn lemma_services_plan_len(svcs: Seq<Service>, n: int)
    requires
        0 <= n,
    ensures
        spec_services_plan(svcs, n).len() == spec_services_size(svcs, n),
    decreases n,
{
    if n > 0 {
        lemma_services_plan_len(svcs, n - 1);
        lemma_chars_plan_len(
            n - 1,
            svcs[n - 1].characteristics@,
            svcs[n - 1].characteristics@.len() as int,
        );
    }
}

/// Each characteristic subtree adds at least one tree place, so the
/// sizes grow with the count (and, from zero, are nonnegative).
proof fn lemma_chars_size_bounds(chars: Seq<Characteristic>, n1: int, n2: int)
    requires
        0 <= n1 <= n2,
    ensures
        spec_chars_size(chars, n1) + (n2 - n1) <= spec_chars_size(chars, n2),
    decreases n2 - n1,
{
    if n1 < n2 {
        lemma_chars_size_bounds(chars, n1, n2 - 1);
    }
}

/// Each service subtree adds at least one tree place, so the sizes grow
/// with the count (and, from zero, are nonnegative).
proof fn lemma_services_size_bounds(svcs: Seq<Service>, n1: int, n2: int)
    requires
        0 <= n1 <= n2,
    ensures
        spec_services_size(svcs, n1) + (n2 - n1) <= spec_services_size(svcs, n2),
    decreases n2 - n1,
{
    if n1 < n2 {
        lemma_services_size_bounds(svcs, n1, n2 - 1);
        let s = svcs[n2 - 1];
        lemma_chars_size_bounds(s.characteristics@, 0, s.characteristics@.len() as int);
    }
}

/// A shorter characteristic plan is a prefix of a longer one.
proof fn lemma_chars_plan_prefix(i: int, chars: Seq<Characteristic>, n1: int, n2: int, m: int)
    requires
        0 <= n1 <= n2,
        0 <= m < spec_chars_plan(i, chars, n1).len(),
    ensures
        spec_chars_plan(i, chars, n1).len() <= spec_chars_plan(i, chars, n2).len(),
        spec_chars_plan(i, chars, n2)[m] == spec_chars_plan(i, chars, n1)[m],
    decreases n2 - n1,
{
    if n1 < n2 {
        lemma_chars_plan_prefix(i, chars, n1, n2 - 1, m);
    }
}

/// A shorter services plan is a prefix of a longer one.
proof fn lemma_services_plan_prefix(svcs: Seq<Service>, n1: int, n2: int, m: int)
    requires
        0 <= n1 <= n2,
        0 <= m < spec_services_plan(svcs, n1).len(),
    ensures
        spec_services_plan(svcs, n1).len() <= spec_services_plan(svcs, n2).len(),
        spec_services_plan(svcs, n2)[m] == spec_services_plan(svcs, n1)[m],
    decreases n2 - n1,
{
    if n1 < n2 {
        lemma_services_plan_prefix(svcs, n1, n2 - 1, m);
    }
}

/// Law: every declared tree place stands in the publish plan at its
/// computed position.  Together with the position arithmetic this gives
/// declaration order: the root first, each service's subtree before the
/// next service, and within a subtree each parent before its children,
/// siblings in declared order.
pub proof fn lemma_plan_at_pos(app: Application, p: AttributePath)
    requires
        spec_declared(app, p),
    ensures
        0 <= spec_pos(app, p) < spec_plan(app).len(),
        spec_plan(app)[spec_pos(app, p)] == p,
{
    let svcs = app.services@;
    let nsvc = svcs.len() as int;
    lemma_services_plan_len(svcs, nsvc);
    match p {
        AttributePath::Root => {
            lemma_services_size_bounds(svcs, 0, nsvc);
        },
        AttributePath::Service(i) => {
            let i = i as int;
            let q = spec_services_size(svcs, i);
            lemma_services_plan_len(svcs, i);
            lemma_services_size_bounds(svcs, i, nsvc);
            lemma_services_size_bounds(svcs, 0, i);
            assert(spec_services_plan(svcs, i + 1)[q] == spec_service_block(i, svcs[i])[0]);
            lemma_services_plan_len(svcs, i + 1);
            lemma_services_plan_prefix(svcs, i + 1, nsvc, q);
        },
        AttributePath::Characteristic(i, j) => {
            let i = i as int;
            let j = j as int;
            let chars = svcs[i].characteristics@;
            let nch = chars.len() as int;
            let qs = spec_services_size(svcs, i);
            let qc = spec_chars_size(chars, j);
            lemma_services_plan_len(svcs, i);
            lemma_services_size_bounds(svcs, i + 1, nsvc);
            lemma_services_size_bounds(svcs, 0, i);
            lemma_chars_size_bounds(chars, 0, j);
            lemma_chars_size_bounds(chars, j + 1, nch);
            lemma_chars_plan_len(i, chars, j);
            lemma_chars_plan_len(i, chars, j + 1);
            lemma_chars_plan_len(i, chars, nch);
            // within the characteristic plan of service i
            assert(spec_chars_plan(i, chars, j + 1)[qc] == spec_char_block(i, j, chars[j])[0]);
            lemma_chars_plan_prefix(i, chars, j + 1, nch, qc);
            assert(spec_chars_plan(i, chars, nch)[qc] == AttributePath::Characteristic(
                p->Characteristic_0,
                p->Characteristic_1,
            ));
            // within the services plan
            lemma_services_plan_len(svcs, i + 1);
            assert(spec_services_plan(svcs, i + 1)[qs + 1 + qc] == spec_service_block(i, svcs[i])[1
                + qc]);
            assert(spec_service_block(i, svcs[i])[1 + qc] == spec_chars_plan(i, chars, nch)[qc]);
            lemma_services_plan_prefix(svcs, i + 1, nsvc, qs + 1 + qc);
        },
        AttributePath::Descriptor(i, j, k) => {
            let i = i as int;
            let j = j as int;
            let k = k as int;
            let chars = svcs[i].characteristics@;
            let nch = chars.len() as int;
            let ndesc = chars[j].descriptors@.len() as int;
            let qs = spec_services_size(svcs, i);
            let qc = spec_chars_size(chars, j);
            lemma_services_plan_len(svcs, i);
            lemma_services_size_bounds(svcs, i + 1, nsvc);
            lemma_services_size_bounds(svcs, 0, i);
            lemma_chars_size_bounds(chars, 0, j);
            lemma_chars_size_bounds(chars, j + 1, nch);
            lemma_chars_plan_len(i, chars, j);
            lemma_chars_plan_len(i, chars, j + 1);
            lemma_chars_plan_len(i, chars, nch);
            // within the characteristic block of characteristic j
            assert(spec_char_block(i, j, chars[j])[1 + k] == spec_desc_block(i, j, ndesc)[k]);
            assert(spec_desc_block(i, j, ndesc)[k] == AttributePath::Descriptor(
                p->Descriptor_0,
                p->Descriptor_1,
                p->Descriptor_2,
            ));
            // within the characteristic plan of service i
            assert(spec_chars_plan(i, chars, j + 1)[qc + 1 + k] == spec_char_block(i, j, chars[j])[
                1 + k]);
            lemma_chars_plan_prefix(i, chars, j + 1, nch, qc + 1 + k);
            // within the services plan
            lemma_services_plan_len(svcs, i + 1);
            assert(spec_services_plan(svcs, i + 1)[qs + 1 + qc + 1 + k] == spec_service_block(
                i,
                svcs[i],
            )[1 + qc + 1 + k]);
            assert(spec_service_block(i, svcs[i])[1 + qc + 1 + k] == spec_chars_plan(
                i,
                chars,
                nch,
            )[qc + 1 + k]);
            lemma_services_plan_prefix(svcs, i + 1, nsvc, qs + 1 + qc + 1 + k);
        },
    }
}

/// Appending a slash-led segment of element characters and a decimal
/// index to a well-formed path keeps it well-formed.
proof fn lemma_append_seg_dec(base: Seq<char>, seg: Seq<char>, n: nat)
    requires
        spec_valid_object_path(base),
        base.len() > 1,
        seg.len() > 1,
        seg[0] == '/',
        forall|m: int| 1 <= m < seg.len() ==> is_path_element_char(#[trigger] seg[m]),
    ensures
        spec_valid_object_path(base + seg + spec_decimal(n)),
        (base + seg + spec_decimal(n)).len() > 1,
{
    let name = seg.subrange(1, seg.len() as int) + spec_decimal(n);
    lemma_decimal_chars_are_digits(n);
    assert forall|m: int| 0 <= m < name.len() implies is_path_element_char(
        #[trigger] name[m],
    ) by {
        if m < seg.len() - 1 {
            assert(name[m] == seg[m + 1]);
        } else {
            assert(name[m] == spec_decimal(n)[m - (seg.len() - 1)]);
            assert(48 <= name[m] as int <= 57);
        }
    }
    assert(base + seg + spec_decimal(n) =~= base + seq!['/'] + name);
    lemma_append_element_valid(base, name);
}

/// Law: under a well-formed root path (other than the bare root), every
/// published node's path is itself a well-formed object path.
pub proof fn lemma_node_path_valid(root: Seq<char>, p: AttributePath)
    requires
        spec_valid_object_path(root),
        root.len() > 1,
    ensures
        spec_valid_object_path(spec_node_path(root, p)),
{
    reveal_strlit("/service");
    reveal_strlit("/char");
    reveal_strlit("/desc");
    match p {
        AttributePath::Root => {},
        AttributePath::Service(i) => {
            lemma_append_seg_dec(root, "/service"@, i as nat);
        },
        AttributePath::Characteristic(i, j) => {
            lemma_append_seg_dec(root, "/service"@, i as nat);
            lemma_append_seg_dec(
                root + "/service"@ + spec_decimal(i as nat),
                "/char"@,
                j as nat,
            );
        },
        AttributePath::Descriptor(i, j, k) => {
            lemma_append_seg_dec(root, "/service"@, i as nat);
            lemma_append_seg_dec(
                root + "/service"@ + spec_decimal(i as nat),
                "/char"@,
                j as nat,
            );
            lemma_append_seg_dec(
                root + "/service"@ + spec_decimal(i as nat) + "/char"@ + spec_decimal(j as nat),
                "/desc"@,
                k as nat,
            );
        },
    }
}

/// Law: within the publish plan every parent precedes its children — the
/// root opens the plan, a service comes before each of its
/// characteristics, and a characteristic before each of its descriptors.
pub proof fn lemma_plan_parent_before_child(app: Application, i: usize, j: usize, k: usize)
    requires
        spec_declared(app, AttributePath::Descriptor(i, j, k)),
    ensures
        0 == spec_pos(app, AttributePath::Root),
        spec_pos(app, AttributePath::Root) < spec_pos(app, AttributePath::Service(i)),
        spec_pos(app, AttributePath::Service(i)) < spec_pos(
            app,
            AttributePath::Characteristic(i, j),
        ),
        spec_pos(app, AttributePath::Characteristic(i, j)) < spec_pos(
            app,
            AttributePath::Descriptor(i, j, k),
        ),
{
    let svcs = app.services@;
    let chars = svcs[i as int].characteristics@;
    lemma_services_size_bounds(svcs, 0, i as int);
    lemma_chars_size_bounds(chars, 0, j as int);
}

/// Law: siblings stand in the publish plan in declaration order — an
/// earlier service precedes a later one, and so do the characteristics
/// within one service and the descriptors within one characteristic.
pub proof fn lemma_plan_siblings_in_declaration_order(
    app: Application,
    i: usize,
    i2: usize,
    j: usize,
    j2: usize,
    k: usize,
    k2: usize,
)
    requires
        (i as int) < (i2 as int) < app.services@.len(),
        (j as int) < (j2 as int) < app.services@[i as int].characteristics@.len(),
        (k as int) < (k2 as int)
            < app.services@[i as int].characteristics@[j as int].descriptors@.len(),
    ensures
        spec_pos(app, AttributePath::Service(i)) < spec_pos(app, AttributePath::Service(i2)),
        spec_pos(app, AttributePath::Characteristic(i, j)) < spec_pos(
            app,
            AttributePath::Characteristic(i, j2),
        ),
        spec_pos(app, AttributePath::Descriptor(i, j, k)) < spec_pos(
            app,
            AttributePath::Descriptor(i, j, k2),
        ),
{
    let svcs = app.services@;
    let chars = svcs[i as int].characteristics@;
    lemma_services_size_bounds(svcs, i as int, i2 as int);
    lemma_chars_size_bounds(chars, j as int, j2 as int);
}

/// Law: releasing a handle a second time has no observable effect — the
/// second release produces no teardown step at all (in particular no
/// second unregister call) and leaves the handle exactly as it was.
pub proof fn lemma_release_idempotent(h: ApplicationHandle)
    ensures
        spec_release_steps(spec_released(h)).len() == 0,
        spec_released(spec_released(h)) == spec_released(h),
{
}

/// Law: the first release of a live handle unregisters before removing
/// anything, removes every published node exactly once, and removes the
/// root — the first node published — last of all.
pub proof fn lemma_release_order(h: ApplicationHandle)
    requires
        !h.released,
        h.reg_paths@.len() > 0,
    ensures
        spec_release_steps(h).len() == 1 + h.reg_paths@.len(),
        spec_release_steps(h)[0] == TeardownStep::Unregister,
        forall|m: int|
            1 <= m < spec_release_steps(h).len() ==> #[trigger] spec_release_steps(h)[m]
                == TeardownStep::Remove(h.reg_paths@[h.reg_paths@.len() - m]),
        spec_release_steps(h).last() == TeardownStep::Remove(h.reg_paths@[0]),
{
}

} // verus!
