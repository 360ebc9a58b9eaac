//! The scene model: an insertion-ordered mapping from names to lists of
//! components, together with the small sun and grid objects and the managers
//! that commands address.

use vstd::prelude::*;

verus! {

use crate::bounding_box::BoundingBox;
use crate::camera::Camera;
use crate::cloud::Cloud;

/// The sun: a planar orbit, described by a distance and an angle in
/// fixed-point radians.
#[derive(Clone, Copy, Debug, PartialEq, Eq, Structural)]
pub struct Sun {
    pub distance: i64,
    pub angle: i64,
}

impl Sun {
    /// Overwrite the orbit distance.
    pub fn set_d(&mut self, d: i64)
        ensures
            final(self).distance == d,
            final(self).angle == old(self).angle,
    {
        self.distance = d;
    }

    /// Overwrite the orbit angle.
    pub fn set_angle(&mut self, a: i64)
        ensures
            final(self).angle == a,
            final(self).distance == old(self).distance,
    {
        self.angle = a;
    }
}

/// The reference ground grid on the zero height plane: `2k + 1` lines per
/// axis at spacing `scale / k`.
#[derive(Clone, Copy, Debug, PartialEq, Eq, Structural)]
pub struct Grid {
    pub k: i64,
    pub scale: i64,
}

/// A scene component: the closed sum the renderer dispatches over.
#[derive(Debug)]
pub enum Component {
    Cloud(Cloud),
    Sun(Sun),
    Grid(Grid),
    BoundingBox(BoundingBox),
    Camera(Camera),
}

/// One named slot of the scene, holding the components added under that
/// name in insertion order.
#[derive(Debug)]
pub struct SceneEntry {
    pub name: String,
    pub components: Vec<Component>,
}

/// The scene: named slots in insertion order, names unique.
#[derive(Debug)]
pub struct Scene {
    pub entries: Vec<SceneEntry>,
}

/// Whether some entry carries this name.
pub open spec fn has_name(s: Seq<SceneEntry>, nm: Seq<char>) -> bool {
    exists|i: int| 0 <= i < s.len() && #[trigger] s[i].name@ == nm
}

/// `post_s` is `pre` with `component` appended under `nm`: in place when the
/// name was known, in a fresh slot at the end otherwise.
pub open spec fn added(pre: Scene, post_s: Scene, nm: Seq<char>, component: Component) -> bool {
    if has_name(pre.entries@, nm) {
        &&& post_s.entries@.len() == pre.entries@.len()
        &&& forall|i: int|
            0 <= i < pre.entries@.len() ==> #[trigger] post_s.entries@[i].name@
                == pre.entries@[i].name@
        &&& forall|i: int|
            0 <= i < pre.entries@.len() && pre.entries@[i].name@ != nm
                ==> #[trigger] post_s.entries@[i] == pre.entries@[i]
        &&& forall|i: int|
            0 <= i < pre.entries@.len() && pre.entries@[i].name@ == nm
                ==> #[trigger] post_s.entries@[i].components@ == pre.entries@[i].components@.push(
                component,
            )
    } else {
        &&& post_s.entries@.len() == pre.entries@.len() + 1
        &&& forall|i: int|
            0 <= i < pre.entries@.len() ==> #[trigger] post_s.entries@[i] == pre.entries@[i]
        &&& post_s.entries@.last().name@ == nm
        &&& post_s.entries@.last().components@ =~= seq![component]
    }
}

/// `post_s` is `pre` with the slot named `nm` dropped, if there was one.
pub open spec fn removed(pre: Scene, post_s: Scene, nm: Seq<char>) -> bool {
    if has_name(pre.entries@, nm) {
        exists|i: int|
            0 <= i < pre.entries@.len() && #[trigger] pre.entries@[i].name@ == nm
                && post_s.entries@ =~= pre.entries@.remove(i)
    } else {
        post_s.entries@ == pre.entries@
    }
}

impl Scene {
    /// Names are pairwise distinct.
    pub open spec fn wf(self) -> bool {
        forall|i: int, j: int|
            0 <= i < j < self.entries@.len() ==> #[trigger] self.entries@[i].name@
                != #[trigger] self.entries@[j].name@
    }

    /// An empty scene.
    pub fn new() -> (r: Scene)
        ensures
            r.entries@.len() == 0,
            r.wf(),
    {
        Scene { entries: Vec::new() }
    }

    /// Append a component under `name`: to the existing slot if the name is
    /// known, to a fresh slot at the end otherwise.
    pub fn add_object(&mut self, name: String, component: Component)
        requires
            old(self).wf(),
        ensures
            final(self).wf(),
            added(*old(self), *final(self), name@, component),
    {
        let found = self.find_index(&name);
        match found {
            Some(i) => {
                proof {
                    lemma_unique_name(*self, i as int, name@);
                }
                self.entries[i].components.push(component);
                proof {
                    assert(forall|k: int|
                        0 <= k < self.entries@.len() ==> #[trigger] self.entries@[k].name@
                            == old(self).entries@[k].name@);
                }
            },
            None => {
                let mut components: Vec<Component> = Vec::new();
                components.push(component);
                self.entries.push(SceneEntry { name, components });
                proof {
                    assert forall|a: int, b: int|
                        0 <= a < b < self.entries@.len() implies #[trigger] self.entries@[a].name@
                        != #[trigger] self.entries@[b].name@ by {
                        if b < self.entries@.len() - 1 {
                            assert(old(self).entries@[a].name@ != old(self).entries@[b].name@);
                        }
                    }
                }
            },
        }
    }

    /// The position of the slot carrying `name`, if any.
    pub(crate) fn find_index(&self, name: &String) -> (r: Option<usize>)
        ensures
            match r {
                Some(i) => i < self.entries@.len() && self.entries@[i as int].name@ == name@,
                None => !has_name(self.entries@, name@),
            },
    {
        let n = self.entries.len();
        let mut i: usize = 0;
        while i < n
            invariant
                n == self.entries@.len(),
                i <= n,
                forall|k: int| 0 <= k < i ==> #[trigger] self.entries@[k].name@ != name@,
            decreases n - i,
        {
            if self.entries[i].name == *name {
                return Some(i);
            }
            i = i + 1;
        }
        None
    }

    /// The components filed under `name`, if the name is known.
    pub fn get_object(&self, name: &String) -> (r: Option<&Vec<Component>>)
        ensures
            match r {
                Some(v) => exists|i: int|
                    0 <= i < self.entries@.len() && #[trigger] self.entries@[i].name@ == name@
                        && v == &self.entries@[i].components,
                None => !has_name(self.entries@, name@),
            },
    {
        let n = self.entries.len();
        let mut i: usize = 0;
        while i < n
            invariant
                n == self.entries@.len(),
                i <= n,
                forall|k: int| 0 <= k < i ==> #[trigger] self.entries@[k].name@ != name@,
            decreases n - i,
        {
            if self.entries[i].name == *name {
                return Some(&self.entries[i].components);
            }
            i = i + 1;
        }
        None
    }

    /// Drop the slot filed under `name`, if any.
    pub fn remove(&mut self, name: &String)
        requires
            old(self).wf(),
        ensures
            final(self).wf(),
            removed(*old(self), *final(self), name@),
    {
        let found = self.find_index(name);
        match found {
            Some(i) => {
                self.entries.remove(i);
                proof {
                    let ghost oe = old(self).entries@;
                    assert forall|a: int, b: int|
                        0 <= a < b < self.entries@.len() implies #[trigger] self.entries@[a].name@
                        != #[trigger] self.entries@[b].name@ by {
                        let oa = if a < i as int {
                            a
                        } else {
                            a + 1
                        };
                        let ob = if b < i as int {
                            b
                        } else {
                            b + 1
                        };
                        assert(self.entries@[a] == oe[oa]);
                        assert(self.entries@[b] == oe[ob]);
                        assert(oe[oa].name@ != oe[ob].name@);
                    }
                }
            },
            None => {},
        }
    }
}

/// In a well-formed scene, at most one slot carries a given name.
pub proof fn lemma_unique_name(s: Scene, i: int, nm: Seq<char>)
    requires
        s.wf(),
        0 <= i < s.entries@.len(),
        s.entries@[i].name@ == nm,
    ensures
        forall|k: int|
            0 <= k < s.entries@.len() && #[trigger] s.entries@[k].name@ == nm ==> k == i,
{
    assert forall|k: int|
        0 <= k < s.entries@.len() && #[trigger] s.entries@[k].name@ == nm implies k == i by {
        if k < i {
            assert(s.entries@[k].name@ != s.entries@[i].name@);
        } else if k > i {
            assert(s.entries@[i].name@ != s.entries@[k].name@);
        }
    }
}

/// The scene manager: owner of the scene the commands mutate.
#[derive(Debug)]
pub struct SceneManager {
    pub scene: Scene,
}

/// The camera manager: owner of the interactive camera.
#[derive(Clone, Copy, Debug, PartialEq, Eq, Structural)]
pub struct CameraManager {
    pub camera: Camera,
}

/// The bundle of managers a command executes against.
#[derive(Debug)]
pub struct ManagerSolution {
    pub scene_manager: SceneManager,
    pub camera_manager: CameraManager,
}

impl ManagerSolution {
    pub fn new() -> (r: ManagerSolution)
        ensures
            r.scene_manager.scene.entries@.len() == 0,
            r.scene_manager.scene.wf(),
            r.camera_manager.camera.view.wf(),
    {
        ManagerSolution {
            scene_manager: SceneManager { scene: Scene::new() },
            camera_manager: CameraManager { camera: Camera::default() },
        }
    }

    /// Read access to the scene manager.
    pub fn get_scene_manager(&self) -> (r: &SceneManager)
        ensures
            r == &self.scene_manager,
    {
        &self.scene_manager
    }

    /// Read access to the camera manager.
    pub fn get_camera_manager(&self) -> (r: &CameraManager)
        ensures
            r == &self.camera_manager,
    {
        &self.camera_manager
    }
}

} // verus!
