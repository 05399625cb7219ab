//! Mesh application registration.
//!
//! A mesh application publishes, under a caller-chosen root path, an
//! object-manager root, one application object and one object per
//! element.  Elements advertise the models they implement, split into
//! SIG-assigned and vendor-assigned identifier lists.

use vstd::prelude::*;
use vstd::string::*;
use crate::application::TeardownStep;
use crate::objpath::{is_path_element_char, lemma_append_element_valid, spec_valid_object_path};
use crate::text::{format_two_digit, lemma_two_digit_chars_are_digits, spec_two_digit};

verus! {

/// Identity of one mesh model: assigned by the SIG, or by a vendor
/// together with the vendor's company identifier.
#[derive(Clone, Copy, Debug, PartialEq, Eq, Structural)]
pub enum ModelIdentifier {
    /// A SIG-assigned model identifier.
    SIG(u16),
    /// A vendor-assigned model identifier, with the company identifier
    /// first.
    Vendor(u16, u16),
}

/// One element of a mesh application.
#[derive(Clone, Debug)]
pub struct Element {
    /// The identities of the models this element implements, in
    /// declaration order.
    pub models: Vec<ModelIdentifier>,
}

/// The SIG-assigned identifiers among a model list, in declared order.
pub open spec fn spec_sig_models(ms: Seq<ModelIdentifier>) -> Seq<u16>
    decreases ms.len(),
{
    if ms.len() == 0 {
        Seq::empty()
    } else {
        spec_sig_models(ms.drop_last()) + (match ms.last() {
            ModelIdentifier::SIG(id) => seq![id],
            ModelIdentifier::Vendor(_, _) => Seq::empty(),
        })
    }
}

/// The vendor-assigned identifiers among a model list, in declared
/// order, each with its company identifier.
pub open spec fn spec_vendor_models(ms: Seq<ModelIdentifier>) -> Seq<(u16, u16)>
    decreases ms.len(),
{
    if ms.len() == 0 {
        Seq::empty()
    } else {
        spec_vendor_models(ms.drop_last()) + (match ms.last() {
            ModelIdentifier::SIG(_) => Seq::empty(),
            ModelIdentifier::Vendor(vid, id) => seq![(vid, id)],
        })
    }
}

/// An element as published on the bus.
pub struct RegisteredElement {
    /// The registered element definition.
    pub element: Element,
    /// The element's position, as advertised in its `Index` property.
    pub index: u8,
}

impl RegisteredElement {
    /// Wraps an element for publication at the given position.
    pub fn new(element: Element, index: u8) -> (r: Self)
        ensures
            r.element == element,
            r.index == index,
    {
        RegisteredElement { element, index }
    }

    /// The `Index` property.
    pub fn index_property(&self) -> (r: u8)
        ensures
            r == self.index,
    {
        self.index
    }

    /// The `Models` property source: the SIG-assigned model identifiers,
    /// in declared order.
    pub fn sig_models(&self) -> (r: Vec<u16>)
        ensures
            r@ == spec_sig_models(self.element.models@),
    {
        let ms = &self.element.models;
        let n = ms.len();
        let mut r: Vec<u16> = Vec::new();
        assert(r@ =~= spec_sig_models(ms@.subrange(0, 0)));
        let mut i: usize = 0;
        while i < n
            invariant
                i <= n,
                n == ms@.len(),
                ms@ == self.element.models@,
                r@ == spec_sig_models(ms@.subrange(0, i as int)),
            decreases n - i,
        {
            proof {
                assert(ms@.subrange(0, i + 1).drop_last() =~= ms@.subrange(0, i as int));
                assert(ms@.subrange(0, i + 1).last() == ms@[i as int]);
            }
            match ms[i] {
                ModelIdentifier::SIG(id) => {
                    r.push(id);
                },
                ModelIdentifier::Vendor(_, _) => (),
            }
            assert(r@ =~= spec_sig_models(ms@.subrange(0, i + 1)));
            i = i + 1;
        }
        assert(ms@.subrange(0, n as int) =~= ms@);
        r
    }

    /// The `VendorModels` property source: the vendor-assigned model
    /// identifiers, in declared order.
    pub fn vendor_models(&self) -> (r: Vec<(u16, u16)>)
        ensures
            r@ == spec_vendor_models(self.element.models@),
    {
        let ms = &self.element.models;
        let n = ms.len();
        let mut r: Vec<(u16, u16)> = Vec::new();
        assert(r@ =~= spec_vendor_models(ms@.subrange(0, 0)));
        let mut i: usize = 0;
        while i < n
            invariant
                i <= n,
                n == ms@.len(),
                ms@ == self.element.models@,
                r@ == spec_vendor_models(ms@.subrange(0, i as int)),
            decreases n - i,
        {
            proof {
                assert(ms@.subrange(0, i + 1).drop_last() =~= ms@.subrange(0, i as int));
                assert(ms@.subrange(0, i + 1).last() == ms@[i as int]);
            }
            match ms[i] {
                ModelIdentifier::SIG(_) => (),
                ModelIdentifier::Vendor(vid, id) => {
                    r.push((vid, id));
                },
            }
            assert(r@ =~= spec_vendor_models(ms@.subrange(0, i + 1)));
            i = i + 1;
        }
        assert(ms@.subrange(0, n as int) =~= ms@);
        r
    }
}

/// Definition of a mesh application.
#[derive(Clone, Debug)]
pub struct Application {
    /// The root path under which the application is published.
    pub path: String,
    /// The application's elements, in declaration order.
    pub elements: Vec<Element>,
}

/// The object published at one node of a mesh application.
pub enum MeshObject {
    /// The object-manager root.
    Root,
    /// The application object.
    Application(RegisteredApplication),
    /// One element.
    Element(RegisteredElement),
}

/// One published node of a mesh application.
pub struct MeshNode {
    /// The object path of this node.
    pub path: String,
    /// The object published at that path.
    pub object: MeshObject,
}

/// Handle to a published mesh application.
///
/// Its only operation is release, which unpublishes the tree exactly
/// once.
pub struct ApplicationHandle {
    /// The root path of the published application.
    pub name: String,
    /// Whether the handle has already been released.
    pub released: bool,
}

impl ApplicationHandle {
    /// Releases the handle.  The first release yields the removal of the
    /// published root; any further release yields nothing and changes
    /// nothing.
    pub fn release(&mut self) -> (steps: Vec<TeardownStep>)
        ensures
            old(self).released ==> (*final(self) == *old(self) && steps@.len() == 0),
            !old(self).released ==> (final(self).released && final(self).name == old(self).name
                && steps@ =~= seq![TeardownStep::Remove(old(self).name)]),
    {
        if self.released {
            return Vec::new();
        }
        self.released = true;
        let mut steps: Vec<TeardownStep> = Vec::new();
        steps.push(TeardownStep::Remove(self.name.clone()));
        steps
    }
}

/// Law: under a well-formed root path (other than the bare root), every
/// path a mesh application publishes — the application object's and each
/// element's — is itself a well-formed object path.
pub proof fn lemma_mesh_node_paths_valid(root: Seq<char>, e: nat)
    requires
        spec_valid_object_path(root),
        root.len() > 1,
    ensures
        spec_valid_object_path(root + "/application"@),
        spec_valid_object_path(root + "/ele"@ + spec_two_digit(e)),
{
    reveal_strlit("/application");
    reveal_strlit("/ele");
    let app_name = "/application"@.subrange(1, 12);
    assert forall|m: int| 0 <= m < app_name.len() implies is_path_element_char(
        #[trigger] app_name[m],
    ) by {
        assert(app_name[m] == "/application"@[m + 1]);
    }
    assert(root + "/application"@ =~= root + seq!['/'] + app_name);
    lemma_append_element_valid(root, app_name);

    lemma_two_digit_chars_are_digits(e);
    let ele_name = "/ele"@.subrange(1, 4) + spec_two_digit(e);
    assert forall|m: int| 0 <= m < ele_name.len() implies is_path_element_char(
        #[trigger] ele_name[m],
    ) by {
        if m < 3 {
            assert(ele_name[m] == "/ele"@[m + 1]);
        } else {
            assert(ele_name[m] == spec_two_digit(e)[m - 3]);
            assert(48 <= ele_name[m] as int <= 57);
        }
    }
    assert(root + "/ele"@ + spec_two_digit(e) =~= root + seq!['/'] + ele_name);
    lemma_append_element_valid(root, ele_name);
}

/// An application as exposed to the mesh daemon.
pub struct RegisteredApplication {
    /// The registered application definition.
    pub app: Application,
}

impl RegisteredApplication {
    /// Wraps a mesh application for publication.
    pub fn new(app: Application) -> (r: Self)
        ensures
            r.app == app,
    {
        RegisteredApplication { app }
    }

    /// The `CompanyID` property.
    pub fn company_id(&self) -> (r: u16)
        ensures
            r == 0x05f1,
    {
        0x05f1
    }

    /// The `ProductID` property.
    pub fn product_id(&self) -> (r: u16)
        ensures
            r == 0x0001,
    {
        0x0001
    }

    /// The `VersionID` property.
    pub fn version_id(&self) -> (r: u16)
        ensures
            r == 0x0001,
    {
        0x0001
    }

    /// Publishes the application: the object-manager root at its path,
    /// the application object under `path/application`, and each element
    /// under `path/eleNN` (two-digit, zero-based position), together with
    /// the handle whose release unpublishes the root.
    pub fn register(self) -> (r: (Vec<MeshNode>, ApplicationHandle))
        requires
            spec_valid_object_path(self.app.path@),
            self.app.elements@.len() <= 255,
        ensures
            r.0@.len() == 2 + self.app.elements@.len(),
            r.0@[0].path@ == self.app.path@,
            r.0@[0].object is Root,
            r.0@[1].path@ == self.app.path@ + "/application"@,
            (r.0@[1].object matches MeshObject::Application(ra) && ra.app.path == self.app.path
                && ra.app.elements@.len() == 0),
            forall|e: int|
                0 <= e < self.app.elements@.len() ==> (#[trigger] r.0@[2 + e]).path@
                    == self.app.path@ + "/ele"@ + spec_two_digit(e as nat),
            forall|e: int|
                0 <= e < self.app.elements@.len() ==> ((#[trigger] r.0@[2 + e]).object matches
                    MeshObject::Element(re) && re.element == self.app.elements@[e] && re.index
                    == e as u8),
            !r.1.released,
            r.1.name == self.app.path,
    {
        let ghost app0 = self.app;
        let Application { path, elements } = self.app;
        let mut elements = elements;
        let mut nodes: Vec<MeshNode> = Vec::new();
        nodes.push(MeshNode { path: path.clone(), object: MeshObject::Root });
        let mut app_path = path.clone();
        app_path.append("/application");
        let stripped = Application { path: path.clone(), elements: Vec::new() };
        nodes.push(
            MeshNode {
                path: app_path,
                object: MeshObject::Application(RegisteredApplication { app: stripped }),
            },
        );
        let n = elements.len();
        let ghost oelems = app0.elements@;
        let mut e: usize = 0;
        while elements.len() > 0
            invariant
                e + elements@.len() == oelems.len(),
                oelems.len() == n,
                n <= 255,
                elements@ == oelems.subrange(e as int, oelems.len() as int),
                path == app0.path,
                nodes@.len() == 2 + e,
                nodes@[0].path@ == app0.path@,
                nodes@[0].object is Root,
                nodes@[1].path@ == app0.path@ + "/application"@,
                (nodes@[1].object matches MeshObject::Application(ra) && ra.app.path == app0.path
                    && ra.app.elements@.len() == 0),
                forall|m: int|
                    0 <= m < e ==> (#[trigger] nodes@[2 + m]).path@ == app0.path@ + "/ele"@
                        + spec_two_digit(m as nat),
                forall|m: int|
                    0 <= m < e ==> ((#[trigger] nodes@[2 + m]).object matches MeshObject::Element(
                        re,
                    ) && re.element == oelems[m] && re.index == m as u8),
            decreases elements@.len(),
        {
            let element = elements.remove(0);
            proof {
                assert(element == oelems[e as int]);
                assert(elements@ == oelems.subrange(e + 1, oelems.len() as int));
            }
            let re = RegisteredElement::new(element, e as u8);
            let mut epath = path.clone();
            epath.append("/ele");
            let idx = format_two_digit(e as u64);
            epath.append(idx.as_str());
            assert(epath@ =~= app0.path@ + "/ele"@ + spec_two_digit(e as nat));
            nodes.push(MeshNode { path: epath, object: MeshObject::Element(re) });
            e = e + 1;
        }
        let handle = ApplicationHandle { name: path, released: false };
        (nodes, handle)
    }
}

} // verus!
