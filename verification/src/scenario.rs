//! The story: scenes, the choices between them, and the checks a story must pass.
use crate::errors::{ValidationError, ValidationErrorView};
use crate::text::same_text;
use vstd::prelude::*;

verus! {

#[derive(Debug, Clone)]
pub struct Scenario {
    pub start_scene: String,
    pub initial_hp: i32,
    pub scenes: Vec<Scene>,
}

#[derive(Debug, Clone)]
pub struct Scene {
    pub id: String,
    pub title: String,
    pub text: String,
    pub choices: Vec<Choice>,
    pub found_item: Option<String>,
    pub hp_delta: Option<i32>,
    pub ending: Option<Ending>,
}

#[derive(Debug, Clone)]
pub struct Choice {
    pub label: String,
    pub next: String,
    pub required_item: Option<String>,
}

#[derive(Debug, Clone, Copy, PartialEq, Eq, Structural)]
pub enum Ending {
    Victory,
    Escape,
    Defeat,
}

/// The label under which an ending is announced.
pub open spec fn ending_label(e: Ending) -> Seq<char> {
    match e {
        Ending::Victory => "Victory"@,
        Ending::Escape => "Escape"@,
        Ending::Defeat => "Defeat"@,
    }
}

impl Ending {
    pub fn as_label(&self) -> (s: &'static str)
        ensures
            s@ == ending_label(*self),
    {
        match self {
            Ending::Victory => "Victory",
            Ending::Escape => "Escape",
            Ending::Defeat => "Defeat",
        }
    }
}

/// The position of the first scene at or after `k` whose id is `id`.
pub open spec fn find_scene_from(scenes: Seq<Scene>, id: Seq<char>, k: int) -> Option<int>
    decreases scenes.len() - k,
{
    if k < 0 || k >= scenes.len() {
        None
    } else if scenes[k].id@ == id {
        Some(k)
    } else {
        find_scene_from(scenes, id, k + 1)
    }
}

/// The position of the first scene whose id is `id`.
pub open spec fn find_scene(scenes: Seq<Scene>, id: Seq<char>) -> Option<int> {
    find_scene_from(scenes, id, 0)
}

/// Some scene has the id `id`.
pub open spec fn has_scene(scenes: Seq<Scene>, id: Seq<char>) -> bool {
    exists|j: int| 0 <= j < scenes.len() && (#[trigger] scenes[j]).id@ == id
}

/// What `find_scene_from` returns: the first matching position at or after `k`.
pub proof fn lemma_find_scene_from(scenes: Seq<Scene>, id: Seq<char>, k: int)
    requires
        0 <= k,
    ensures
        match find_scene_from(scenes, id, k) {
            Some(i) => k <= i < scenes.len() && scenes[i].id@ == id && forall|j: int|
                k <= j < i ==> (#[trigger] scenes[j]).id@ != id,
            None => forall|j: int| k <= j < scenes.len() ==> (#[trigger] scenes[j]).id@ != id,
        },
    decreases scenes.len() - k,
{
    if k < scenes.len() && scenes[k].id@ != id {
        lemma_find_scene_from(scenes, id, k + 1);
    }
}

/// Lookup by id finds the first scene with that id, and finds none exactly when
/// no scene has it.
pub proof fn lemma_find_scene(scenes: Seq<Scene>, id: Seq<char>)
    ensures
        match find_scene(scenes, id) {
            Some(i) => 0 <= i < scenes.len() && scenes[i].id@ == id && forall|j: int|
                0 <= j < i ==> (#[trigger] scenes[j]).id@ != id,
            None => !has_scene(scenes, id),
        },
        find_scene(scenes, id) is Some <==> has_scene(scenes, id),
{
    lemma_find_scene_from(scenes, id, 0);
}

/// Scene `i` repeats the id of an earlier scene.
pub open spec fn repeats_earlier_id(scenes: Seq<Scene>, i: int) -> bool {
    exists|j: int| 0 <= j < i && (#[trigger] scenes[j]).id@ == scenes[i].id@
}

/// Scene `i` is the first scene that repeats an earlier id.
pub open spec fn first_repeat(scenes: Seq<Scene>, i: int) -> bool {
    &&& 0 <= i < scenes.len()
    &&& repeats_earlier_id(scenes, i)
    &&& forall|j: int| 0 <= j < i ==> !repeats_earlier_id(scenes, j)
}

/// No two scenes share an id.
pub open spec fn ids_unique(scenes: Seq<Scene>) -> bool {
    forall|i: int, j: int|
        0 <= i < scenes.len() && 0 <= j < scenes.len() && i != j ==> (#[trigger] scenes[i]).id@
            != (#[trigger] scenes[j]).id@
}

/// Choice `k` of scene `i` leads to an id that no scene has.
pub open spec fn dangling_choice(scenes: Seq<Scene>, i: int, k: int) -> bool {
    &&& 0 <= i < scenes.len()
    &&& 0 <= k < scenes[i].choices@.len()
    &&& !has_scene(scenes, scenes[i].choices@[k].next@)
}

/// `(i, k)` is the first dangling choice, scenes in order and choices in order.
pub open spec fn first_dangling(scenes: Seq<Scene>, i: int, k: int) -> bool {
    &&& dangling_choice(scenes, i, k)
    &&& forall|i2: int, k2: int|
        (0 <= i2 < i || (i2 == i && 0 <= k2 < k)) ==> !dangling_choice(scenes, i2, k2)
}

/// Every choice leads to an id that some scene has.
pub open spec fn choices_resolve(scenes: Seq<Scene>) -> bool {
    forall|i: int, k: int| !dangling_choice(scenes, i, k)
}

impl Scenario {
    /// A well-formed story: unique scene ids, an existing start scene, and every
    /// choice leading to an existing scene.
    pub open spec fn well_formed(&self) -> bool {
        &&& ids_unique(self.scenes@)
        &&& has_scene(self.scenes@, self.start_scene@)
        &&& choices_resolve(self.scenes@)
    }

    /// The outcome of validation: the first problem in the order the checks run.
    pub open spec fn validation(&self) -> Result<(), ValidationErrorView> {
        let scenes = self.scenes@;
        if exists|i: int| first_repeat(scenes, i) {
            let i = choose|i: int| first_repeat(scenes, i);
            Err(ValidationErrorView::DuplicateSceneId(scenes[i].id@))
        } else if !has_scene(scenes, self.start_scene@) {
            Err(ValidationErrorView::StartSceneMissing(self.start_scene@))
        } else if exists|i: int, k: int| first_dangling(scenes, i, k) {
            let (i, k) = choose|i: int, k: int| first_dangling(scenes, i, k);
            Err(ValidationErrorView::MissingScene(scenes[i].choices@[k].next@))
        } else {
            Ok(())
        }
    }

    /// Checks the story: first that no scene id occurs twice, then that the start
    /// scene exists, then that every choice leads to an existing scene.
    pub fn validate(&self) -> (res: Result<(), ValidationError>)
        ensures
            match res {
                Ok(()) => self.validation() == Ok::<(), ValidationErrorView>(()),
                Err(e) => self.validation() == Err::<(), ValidationErrorView>(e@),
            },
            res is Ok <==> self.well_formed(),
    {
        let ghost scenes = self.scenes@;
        let n = self.scenes.len();
        // ids of scenes[0..i] are pairwise distinct
        let mut i: usize = 0;
        while i < n
            invariant
                n == scenes.len(),
                scenes == self.scenes@,
                0 <= i <= n,
                forall|j: int| 0 <= j < i ==> !repeats_earlier_id(scenes, j),
            decreases n - i,
        {
            let mut j: usize = 0;
            while j < i
                invariant
                    n == scenes.len(),
                    scenes == self.scenes@,
                    0 <= j <= i < n,
                    forall|j2: int| 0 <= j2 < i ==> !repeats_earlier_id(scenes, j2),
                    forall|m: int| 0 <= m < j ==> (#[trigger] scenes[m]).id@ != scenes[i as int].id@,
                decreases i - j,
            {
                if self.scenes[j].id == self.scenes[i].id {
                    proof {
                        assert(repeats_earlier_id(scenes, i as int));
                        assert(first_repeat(scenes, i as int));
                        lemma_first_repeat_unique(scenes, i as int);
                    }
                    return Err(ValidationError::DuplicateSceneId(self.scenes[i].id.clone()));
                }
                j = j + 1;
            }
            i = i + 1;
        }
        proof {
            lemma_no_repeat_means_unique(scenes);
        }
        assert(!exists|i: int| first_repeat(scenes, i));
        if !self.has_scene_exec(self.start_scene.as_str()) {
            return Err(ValidationError::StartSceneMissing(self.start_scene.clone()));
        }
        let mut i: usize = 0;
        while i < n
            invariant
                n == scenes.len(),
                scenes == self.scenes@,
                0 <= i <= n,
                ids_unique(scenes),
                !exists|i2: int| first_repeat(scenes, i2),
                has_scene(scenes, self.start_scene@),
                forall|i2: int, k2: int| 0 <= i2 < i ==> !dangling_choice(scenes, i2, k2),
            decreases n - i,
        {
            let choices = &self.scenes[i].choices;
            let m = choices.len();
            let mut k: usize = 0;
            while k < m
                invariant
                    n == scenes.len(),
                    scenes == self.scenes@,
                    0 <= i < n,
                    0 <= k <= m,
                    m == scenes[i as int].choices@.len(),
                    choices@ == scenes[i as int].choices@,
                    ids_unique(scenes),
                    !exists|i2: int| first_repeat(scenes, i2),
                    has_scene(scenes, self.start_scene@),
                    forall|i2: int, k2: int|
                        (0 <= i2 < i || (i2 == i && 0 <= k2 < k)) ==> !dangling_choice(scenes, i2, k2),
                decreases m - k,
            {
                if !self.has_scene_exec(choices[k].next.as_str()) {
                    proof {
                        assert(first_dangling(scenes, i as int, k as int));
                        lemma_first_dangling_unique(scenes, i as int, k as int);
                    }
                    return Err(ValidationError::MissingScene(choices[k].next.clone()));
                }
                k = k + 1;
            }
            proof {
                assert forall|i2: int, k2: int| 0 <= i2 < i + 1 implies !dangling_choice(scenes, i2, k2) by {
                    if i2 == i && 0 <= k2 < m {
                    }
                }
            }
            i = i + 1;
        }
        proof {
            assert(forall|i2: int, k2: int| !dangling_choice(scenes, i2, k2));
        }
        Ok(())
    }

    fn has_scene_exec(&self, id: &str) -> (r: bool)
        ensures
            r == has_scene(self.scenes@, id@),
    {
        let n = self.scenes.len();
        let mut j: usize = 0;
        while j < n
            invariant
                n == self.scenes@.len(),
                0 <= j <= n,
                forall|m: int| 0 <= m < j ==> (#[trigger] self.scenes@[m]).id@ != id@,
            decreases n - j,
        {
            if same_text(&self.scenes[j].id, id) {
                return true;
            }
            j = j + 1;
        }
        false
    }

    /// The first scene whose id is `id`.
    pub fn scene_by_id(&self, id: &str) -> (res: Option<&Scene>)
        ensures
            res == (match find_scene(self.scenes@, id@) {
                Some(i) => Some(&self.scenes@[i]),
                None => None,
            }),
    {
        let n = self.scenes.len();
        let mut j: usize = 0;
        while j < n
            invariant
                n == self.scenes@.len(),
                0 <= j <= n,
                find_scene_from(self.scenes@, id@, j as int) == find_scene(self.scenes@, id@),
            decreases n - j,
        {
            if same_text(&self.scenes[j].id, id) {
                return Some(&self.scenes[j]);
            }
            j = j + 1;
        }
        None
    }
}

proof fn lemma_first_repeat_unique(scenes: Seq<Scene>, i: int)
    requires
        first_repeat(scenes, i),
    ensures
        (choose|i2: int| first_repeat(scenes, i2)) == i,
{
    let c = choose|i2: int| first_repeat(scenes, i2);
    assert(first_repeat(scenes, c));
    if c < i {
        assert(!repeats_earlier_id(scenes, c));
    } else if c > i {
        assert(!repeats_earlier_id(scenes, i));
    }
}

proof fn lemma_first_dangling_unique(scenes: Seq<Scene>, i: int, k: int)
    requires
        first_dangling(scenes, i, k),
    ensures
        (choose|i2: int, k2: int| first_dangling(scenes, i2, k2)) == (i, k),
{
    let (ci, ck) = choose|i2: int, k2: int| first_dangling(scenes, i2, k2);
    assert(first_dangling(scenes, ci, ck));
    if ci < i || (ci == i && ck < k) {
        assert(!dangling_choice(scenes, ci, ck));
    } else if ci > i || (ci == i && ck > k) {
        assert(!dangling_choice(scenes, i, k));
    }
}

proof fn lemma_no_repeat_means_unique(scenes: Seq<Scene>)
    requires
        forall|j: int| 0 <= j < scenes.len() ==> !repeats_earlier_id(scenes, j),
    ensures
        ids_unique(scenes),
        !exists|i: int| first_repeat(scenes, i),
{
    assert forall|i: int, j: int|
        0 <= i < scenes.len() && 0 <= j < scenes.len() && i != j implies (#[trigger] scenes[i]).id@
        != (#[trigger] scenes[j]).id@ by {
        if i < j {
            assert(!repeats_earlier_id(scenes, j));
        } else {
            assert(!repeats_earlier_id(scenes, i));
        }
    }
}

} // verus!
