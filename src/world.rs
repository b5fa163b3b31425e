//! The scene's entities and the queries the systems run over them.
use vstd::prelude::*;

use crate::geometry::{displacement, fits_i64, Position, Rgb, Size, Velocity};

verus! {

/// What an entity is, as far as the systems tell entities apart.
#[derive(Clone, Copy, Debug, PartialEq, Eq, Structural)]
pub enum Role {
    Camera,
    Paddle,
    Ball,
}

/// The image a sprite is drawn with.
#[derive(Clone, Copy, Debug, PartialEq, Eq, Structural)]
pub enum Texture {
    /// A plain rectangle filled with the sprite's colour.
    Solid,
    /// The round ball image, tinted with the sprite's colour.
    Circle,
}

/// How an entity is drawn.
#[derive(Clone, Copy, Debug, PartialEq, Eq, Structural)]
pub struct Sprite {
    pub size: Size,
    pub color: Rgb,
    pub texture: Texture,
}

/// One entity of the scene with the components it carries.
#[derive(Clone, Copy, Debug, PartialEq, Eq, Structural)]
pub struct Entity {
    pub role: Role,
    pub position: Position,
    pub sprite: Option<Sprite>,
    pub velocity: Option<Velocity>,
}

/// The entity store, in the order the entities were spawned.
pub struct World {
    pub entities: Vec<Entity>,
}

impl View for World {
    type V = Seq<Entity>;

    open spec fn view(&self) -> Seq<Entity> {
        self.entities@
    }
}

/// `i` is the index of the one entity of `role` in `s`.
pub open spec fn is_sole(s: Seq<Entity>, role: Role, i: int) -> bool {
    &&& 0 <= i < s.len()
    &&& s[i].role == role
    &&& forall|j: int| 0 <= j < s.len() && s[j].role == role ==> j == i
}

/// `s` holds exactly one entity of `role`.
pub open spec fn has_single(s: Seq<Entity>, role: Role) -> bool {
    exists|i: int| is_sole(s, role, i)
}

/// `e` moved to the horizontal coordinate `x`.
pub open spec fn with_x(e: Entity, x: int) -> Entity {
    Entity { position: Position { x: x as i64, ..e.position }, ..e }
}

/// Whether one tick of `dt_micros` keeps `e` within the coordinate range.
pub open spec fn can_advance(e: Entity, dt_micros: int) -> bool {
    match e.velocity {
        Some(v) => fits_i64(e.position.x + displacement(v.x as int, dt_micros)) && fits_i64(
            e.position.y + displacement(v.y as int, dt_micros),
        ),
        None => true,
    }
}

/// `e` after one tick of `dt_micros`: moved in the plane by its velocity if
/// it has one, its depth and everything else kept.
pub open spec fn advanced(e: Entity, dt_micros: int) -> Entity {
    match e.velocity {
        Some(v) => Entity {
            position: Position {
                x: (e.position.x + displacement(v.x as int, dt_micros)) as i64,
                y: (e.position.y + displacement(v.y as int, dt_micros)) as i64,
                z: e.position.z,
            },
            ..e
        },
        None => e,
    }
}

/// `e` after one tick of `dt_micros` where that keeps it within the
/// coordinate range, else `e` as it was.
pub open spec fn stepped(e: Entity, dt_micros: int) -> Entity {
    if can_advance(e, dt_micros) {
        advanced(e, dt_micros)
    } else {
        e
    }
}

/// Every entity of `s` after one tick of `dt_micros`, each on its own.
pub open spec fn integrated(s: Seq<Entity>, dt_micros: int) -> Seq<Entity> {
    s.map_values(|e: Entity| stepped(e, dt_micros))
}

impl World {
    /// An empty scene.
    pub fn new() -> (w: World)
        ensures
            w@ == Seq::<Entity>::empty(),
    {
        World { entities: Vec::new() }
    }

    /// Adds `e` after the entities already there.
    pub fn spawn(&mut self, e: Entity)
        ensures
            final(self)@ == old(self)@.push(e),
    {
        self.entities.push(e);
    }

    /// The number of entities.
    pub fn len(&self) -> (n: usize)
        ensures
            n == self@.len(),
    {
        self.entities.len()
    }

    /// The index of the one entity of `role`, or `None` where there are none
    /// or several.
    pub fn single(&self, role: Role) -> (r: Option<usize>)
        ensures
            r.is_some() <==> has_single(self@, role),
            r.is_some() ==> is_sole(self@, role, r.unwrap() as int),
    {
        let n = self.entities.len();
        let mut i: usize = 0;
        while i < n && self.entities[i].role != role
            invariant
                n == self@.len(),
                i <= n,
                forall|j: int| 0 <= j < i ==> self@[j].role != role,
            decreases n - i,
        {
            i = i + 1;
        }
        if i == n {
            return None;
        }
        let first = i;
        i = i + 1;
        while i < n
            invariant
                n == self@.len(),
                first < i <= n,
                self@[first as int].role == role,
                forall|j: int| 0 <= j < first ==> self@[j].role != role,
                forall|j: int| first < j < i ==> self@[j].role != role,
            decreases n - i,
        {
            if self.entities[i].role == role {
                assert(!is_sole(self@, role, first as int));
                assert(!has_single(self@, role)) by {
                    if exists|k: int| is_sole(self@, role, k) {
                        let k = choose|k: int| is_sole(self@, role, k);
                        assert(k == first as int);
                    }
                }
                return None;
            }
            i = i + 1;
        }
        assert(is_sole(self@, role, first as int));
        Some(first)
    }
}

} // verus!
