//! The scene: objects, lights and the skylight fallback colour.
//!
//! A scene is only built up before rendering; nothing mutates it while
//! rays are traced.

use vstd::prelude::*;
use crate::color::{Color, c3};
use crate::light::Lights;
use crate::scene_object::SceneObject;

verus! {

/// An ordered list of objects, an ordered list of lights, and the colour
/// returned for every ray that escapes to infinity.
pub struct Scene {
    pub objects: Vec<SceneObject>,
    pub lights: Vec<Lights>,
    pub skylight: Color,
}

impl Scene {
    /// An empty scene with a black skylight.
    pub fn new() -> (s: Scene)
        ensures
            s.objects@ == Seq::<SceneObject>::empty(),
            s.lights@ == Seq::<Lights>::empty(),
            s.skylight == c3(0, 0, 0),
    {
        Scene { objects: Vec::new(), lights: Vec::new(), skylight: Color::black() }
    }

    /// A scene from whichever components are given; a missing component
    /// defaults to empty, a missing skylight to black.
    pub fn from_maybe_component(
        objs: Option<Vec<SceneObject>>,
        lights: Option<Vec<Lights>>,
        skylight: Option<Color>,
    ) -> (s: Scene)
        ensures
            s.objects@ == (match objs {
                Some(o) => o@,
                None => Seq::<SceneObject>::empty(),
            }),
            s.lights@ == (match lights {
                Some(l) => l@,
                None => Seq::<Lights>::empty(),
            }),
            s.skylight == (match skylight {
                Some(c) => c,
                None => c3(0, 0, 0),
            }),
    {
        let o = match objs {
            Some(o) => o,
            None => Vec::new(),
        };
        let l = match lights {
            Some(l) => l,
            None => Vec::new(),
        };
        let sky = match skylight {
            Some(c) => c,
            None => Color::black(),
        };
        Scene { objects: o, lights: l, skylight: sky }
    }

    /// Adds one object at the end of the object list.
    pub fn add_obj(&mut self, obj: SceneObject)
        ensures
            final(self).objects@ == old(self).objects@.push(obj),
            final(self).lights == old(self).lights,
            final(self).skylight == old(self).skylight,
    {
        self.objects.push(obj);
    }

    /// Adds one light at the end of the light list.
    pub fn add_light(&mut self, light: Lights)
        ensures
            final(self).objects == old(self).objects,
            final(self).lights@ == old(self).lights@.push(light),
            final(self).skylight == old(self).skylight,
    {
        self.lights.push(light);
    }

    /// Moves all the given objects to the end of the object list.
    pub fn append_objs(&mut self, objs: Vec<SceneObject>)
        ensures
            final(self).objects@ == old(self).objects@ + objs@,
            final(self).lights == old(self).lights,
            final(self).skylight == old(self).skylight,
    {
        let mut rest = objs;
        self.objects.append(&mut rest);
    }

    /// Moves all the given lights to the end of the light list.
    pub fn append_light(&mut self, lights: Vec<Lights>)
        ensures
            final(self).objects == old(self).objects,
            final(self).lights@ == old(self).lights@ + lights@,
            final(self).skylight == old(self).skylight,
    {
        let mut rest = lights;
        self.lights.append(&mut rest);
    }

    /// The object list, for scanning.
    pub fn iter_obj(&self) -> (r: &Vec<SceneObject>)
        ensures
            r == &self.objects,
    {
        &self.objects
    }

    /// The light list, for scanning.
    pub fn iter_light(&self) -> (r: &Vec<Lights>)
        ensures
            r == &self.lights,
    {
        &self.lights
    }

    /// The skylight colour.
    pub fn get_skylight(&self) -> (c: Color)
        ensures
            c == self.skylight,
    {
        self.skylight
    }
}

} // verus!
