//! The screens of the game and what is known of each: its resource uid and
//! its display name, by which it is also looked up.
use vstd::prelude::*;

use crate::text::str_eq;

verus! {

/// A screen of the game.
#[derive(PartialEq, Eq, Structural, Hash, Debug, Clone, Copy)]
pub enum Scene {
    DefaultPet,
    Shop,
    NameSelect,
    PetList,
}

/// The resource uid from which a scene is loaded.
pub open spec fn scene_uid(scene: Scene) -> Seq<char> {
    match scene {
        Scene::DefaultPet => "uid://b4i5nrnfck28x"@,
        Scene::Shop => "uid://cljss8rtx37bb"@,
        Scene::NameSelect => "uid://f6rye7ohvsw8"@,
        Scene::PetList => "uid://djadbqbt76p6g"@,
    }
}

/// The display name of a scene, which is also its textual form.
pub open spec fn scene_name(scene: Scene) -> Seq<char> {
    match scene {
        Scene::DefaultPet => "Default Pet"@,
        Scene::Shop => "Item Shop"@,
        Scene::NameSelect => "Name Select"@,
        Scene::PetList => "Pet List"@,
    }
}

/// Every scene, in the order in which they are declared.
pub open spec fn scene_order() -> Seq<Scene> {
    seq![Scene::DefaultPet, Scene::Shop, Scene::NameSelect, Scene::PetList]
}

/// The scene with the given name, looked up in declaration order.
pub open spec fn scene_named(name: Seq<char>) -> Option<Scene> {
    if name == scene_name(Scene::DefaultPet) {
        Some(Scene::DefaultPet)
    } else if name == scene_name(Scene::Shop) {
        Some(Scene::Shop)
    } else if name == scene_name(Scene::NameSelect) {
        Some(Scene::NameSelect)
    } else if name == scene_name(Scene::PetList) {
        Some(Scene::PetList)
    } else {
        None
    }
}

/// The result of parsing a scene from its name.
pub open spec fn parse_scene(name: Seq<char>) -> Result<Scene, ()> {
    match scene_named(name) {
        Some(scene) => Ok(scene),
        None => Err(()),
    }
}

/// Everything known of one scene.
pub struct SceneInfo {
    pub uid: &'static str,
    pub name: &'static str,
    pub own_enum: Scene,
}

impl SceneInfo {
    /// The info is the one that belongs to its own scene.
    pub open spec fn is_info_of(&self, scene: Scene) -> bool {
        &&& self.own_enum == scene
        &&& self.uid@ == scene_uid(scene)
        &&& self.name@ == scene_name(scene)
    }
}

/// The display name of each scene names that scene again, so that parsing
/// a scene's name gives back the scene.
pub proof fn lemma_scene_names_round_trip(scene: Scene)
    ensures
        scene_named(scene_name(scene)) == Some(scene),
        parse_scene(scene_name(scene)) == Ok::<Scene, ()>(scene),
{
    reveal_strlit("Default Pet");
    reveal_strlit("Item Shop");
    reveal_strlit("Name Select");
    reveal_strlit("Pet List");
    assert("Item Shop"@ != "Default Pet"@) by {
        assert("Item Shop"@.len() != "Default Pet"@.len());
    }
    assert("Name Select"@ != "Default Pet"@ && "Name Select"@ != "Item Shop"@) by {
        assert("Name Select"@[0] != "Default Pet"@[0]);
        assert("Name Select"@.len() == 11);
    }
    assert("Pet List"@ != "Default Pet"@ && "Pet List"@ != "Item Shop"@ && "Pet List"@
        != "Name Select"@) by {
        assert("Pet List"@.len() == 8);
    }
}

impl Scene {
    /// The uid, name and enum value of this scene.
    pub fn info(&self) -> (res: SceneInfo)
        ensures
            res.is_info_of(*self),
    {
        match self {
            Scene::DefaultPet => SceneInfo {
                own_enum: Scene::DefaultPet,
                uid: "uid://b4i5nrnfck28x",
                name: "Default Pet",
            },
            Scene::Shop => SceneInfo {
                own_enum: Scene::Shop,
                uid: "uid://cljss8rtx37bb",
                name: "Item Shop",
            },
            Scene::NameSelect => SceneInfo {
                own_enum: Scene::NameSelect,
                uid: "uid://f6rye7ohvsw8",
                name: "Name Select",
            },
            Scene::PetList => SceneInfo {
                own_enum: Scene::PetList,
                uid: "uid://djadbqbt76p6g",
                name: "Pet List",
            },
        }
    }

    /// The info of every scene, in declaration order.
    pub fn all() -> (res: Vec<SceneInfo>)
        ensures
            res@.len() == scene_order().len(),
            forall|i: int| 0 <= i < res@.len() ==> #[trigger] res@[i].is_info_of(scene_order()[i]),
    {
        vec![Scene::DefaultPet.info(), Scene::Shop.info(), Scene::NameSelect.info(), Scene::PetList.info()]
    }

    /// The display name of this scene.
    pub fn to_str(&self) -> (res: &'static str)
        ensures
            res@ == scene_name(*self),
    {
        self.info().name
    }

    /// The scene whose display name is `s`; `Err(())` when no scene has it.
    pub fn from_str(s: &str) -> (res: Result<Scene, ()>)
        ensures
            res == parse_scene(s@),
    {
        let infos = Scene::all();
        let mut i: usize = 0;
        while i < infos.len()
            invariant
                infos@.len() == scene_order().len(),
                forall|j: int| 0 <= j < infos@.len() ==> #[trigger] infos@[j].is_info_of(scene_order()[j]),
                i <= infos@.len(),
                forall|j: int| 0 <= j < i ==> s@ != scene_name(#[trigger] scene_order()[j]),
            decreases infos@.len() - i,
        {
            assert(infos@[i as int].is_info_of(scene_order()[i as int]));
            if str_eq(infos[i].name, s) {
                return Ok(infos[i].own_enum);
            }
            i = i + 1;
        }
        assert(s@ != scene_name(scene_order()[0]));
        assert(s@ != scene_name(scene_order()[1]));
        assert(s@ != scene_name(scene_order()[2]));
        assert(s@ != scene_name(scene_order()[3]));
        Err(())
    }

    /// Sets this scene to the one named `name` and returns `true`; when no
    /// scene has that name, keeps the scene unchanged and returns `false`.
    pub fn assign_from_name(&mut self, name: &str) -> (res: bool)
        ensures
            res == (scene_named(name@) is Some),
            res ==> *final(self) == scene_named(name@).unwrap(),
            !res ==> *final(self) == *old(self),
    {
        match Scene::from_str(name) {
            Ok(scene) => {
                *self = scene;
                true
            },
            Err(()) => false,
        }
    }
}

} // verus!
