//! The composite scene: an ordered list of surfaces scanned linearly.

use vstd::prelude::*;
use crate::hittable::HitRecord;
use crate::hittable::Hittable;
use crate::ray::Ray;
use crate::sphere::Sphere;
use crate::sphere;

verus! {

/// An ordered collection of owned surfaces; hit-testing order never
/// changes which hit is reported, since the nearest hit always wins.
#[derive(Debug)]
pub struct HittableList {
    pub list: Vec<Sphere>,
}

/// A scene is well formed when every surface in it is.
pub open spec fn spec_wf_list(l: Seq<Sphere>) -> bool {
    forall|i: int| 0 <= i < l.len() ==> sphere::spec_wf_sphere(#[trigger] l[i])
}

/// The exact scene intersection: surfaces are scanned in order with a
/// shrinking upper bound, initialized to t_max and narrowed to each
/// accepted hit's t, so a later surface wins only when strictly closer
/// than every earlier accepted hit.
pub open spec fn spec_scene_hit(l: Seq<Sphere>, r: Ray, t_min: int, t_max: int) -> Option<
    HitRecord>
    decreases l.len(),
{
    if l.len() == 0 {
        None::<HitRecord>
    } else {
        let prev = spec_scene_hit(l.drop_last(), r, t_min, t_max);
        let bound = match prev {
            Some(ph) => ph.t as int,
            None => t_max,
        };
        let cur = sphere::spec_hit(l.last(), r, t_min, bound);
        match cur {
            Some(ch) => Some(ch),
            None => prev,
        }
    }
}

impl HittableList {
    /// Build a scene from its surfaces.
    pub fn new(list: Vec<Sphere>) -> (l: HittableList)
        ensures
            l.list == list,
    {
        HittableList { list }
    }

}

impl Hittable for HittableList {
    open spec fn wf(&self) -> bool {
        spec_wf_list(self.list@)
    }

    open spec fn hit_spec(&self, r: Ray, t_min: int, t_max: int) -> Option<HitRecord> {
        spec_scene_hit(self.list@, r, t_min, t_max)
    }

    /// Intersect a ray with every surface: a linear scan whose shrinking
    /// upper bound enforces nearest-hit-wins; exact per `spec_scene_hit`.
    fn hit(&self, r: &Ray, t_min: i64, t_max: i64) -> (res: Option<HitRecord>) {
        let mut result: Option<HitRecord> = None;
        let mut closest: i64 = t_max;
        let mut i: usize = 0;
        while i < self.list.len()
            invariant
                i <= self.list.len(),
                spec_wf_list(self.list@),
                result == spec_scene_hit(self.list@.take(i as int), *r, t_min as int, t_max as int),
                match result {
                    Some(h) => closest == h.t,
                    None => closest == t_max,
                },
            decreases self.list.len() - i,
        {
            proof {
                assert(sphere::spec_wf_sphere(self.list@[i as int]));
            }
            let s = self.list[i];
            match s.hit(r, t_min, closest) {
                Some(h) => {
                    closest = h.t;
                    result = Some(h);
                },
                None => {},
            }
            i = i + 1;
            proof {
                assert(self.list@.take(i as int).drop_last() =~= self.list@.take(i as int - 1));
                assert(self.list@.take(i as int).last() == self.list@[i as int - 1]);
            }
        }
        proof {
            assert(self.list@.take(self.list@.len() as int) =~= self.list@);
        }
        result
    }
}

/// A scene misses only when every member misses over the full interval.
pub proof fn lemma_scene_hit_none(l: Seq<Sphere>, r: Ray, t_min: int, t_max: int)
    requires
        spec_scene_hit(l, r, t_min, t_max) is None,
    ensures
        forall|i: int| 0 <= i < l.len() ==> #[trigger] sphere::spec_hit(l[i], r, t_min, t_max)
            is None,
    decreases l.len(),
{
    if l.len() == 0 {
    } else {
        let pre = l.drop_last();
        let prev = spec_scene_hit(pre, r, t_min, t_max);
        assert(prev is None);
        lemma_scene_hit_none(pre, r, t_min, t_max);
        assert forall|i: int| 0 <= i < l.len() implies #[trigger] sphere::spec_hit(
            l[i],
            r,
            t_min,
            t_max,
        ) is None by {
            if i < l.len() - 1 {
                assert(pre[i] == l[i]);
                assert(sphere::spec_hit(pre[i], r, t_min, t_max) is None);
            } else {
                assert(l[i] == l.last());
            }
        }
    }
}

/// The scene's combined hit is some member's own hit over the full
/// interval.
pub proof fn lemma_scene_hit_member(l: Seq<Sphere>, r: Ray, t_min: int, t_max: int, h: HitRecord)
    requires
        spec_scene_hit(l, r, t_min, t_max) == Some(h),
    ensures
        exists|i: int|
            0 <= i < l.len() && #[trigger] sphere::spec_hit(l[i], r, t_min, t_max) == Some(h),
        t_min < h.t < t_max,
    decreases l.len(),
{
    let pre = l.drop_last();
    let prev = spec_scene_hit(pre, r, t_min, t_max);
    match prev {
        Some(ph) => {
            let cur = sphere::spec_hit(l.last(), r, t_min, ph.t as int);
            match cur {
                Some(ch) => {
                    lemma_scene_hit_member(pre, r, t_min, t_max, ph);
                    sphere::lemma_hit_in_range(l.last(), r, t_min, ph.t as int, ch);
                    sphere::lemma_hit_narrow_some(l.last(), r, t_min, ph.t as int, t_max, ch);
                    assert(sphere::spec_hit(l[l.len() - 1], r, t_min, t_max) == Some(h));
                },
                None => {
                    assert(h == ph);
                    lemma_scene_hit_member(pre, r, t_min, t_max, ph);
                    let j = choose|j: int|
                        0 <= j < pre.len() && #[trigger] sphere::spec_hit(pre[j], r, t_min, t_max)
                            == Some(ph);
                    assert(pre[j] == l[j]);
                    assert(sphere::spec_hit(l[j], r, t_min, t_max) == Some(h));
                },
            }
        },
        None => {
            let cur = sphere::spec_hit(l.last(), r, t_min, t_max);
            assert(cur == Some(h));
            sphere::lemma_hit_in_range(l.last(), r, t_min, t_max, h);
            assert(sphere::spec_hit(l[l.len() - 1], r, t_min, t_max) == Some(h));
        },
    }
}

/// No member's hit over the full interval is strictly closer than the
/// scene's combined hit: the nearest hit always wins.
pub proof fn lemma_scene_hit_nearest(l: Seq<Sphere>, r: Ray, t_min: int, t_max: int, h: HitRecord)
    requires
        spec_scene_hit(l, r, t_min, t_max) == Some(h),
    ensures
        forall|i: int|
            0 <= i < l.len() ==> ((#[trigger] sphere::spec_hit(l[i], r, t_min, t_max)) matches Some(
                hi,
            ) ==> h.t <= hi.t),
    decreases l.len(),
{
    let pre = l.drop_last();
    let prev = spec_scene_hit(pre, r, t_min, t_max);
    match prev {
        Some(ph) => {
            let cur = sphere::spec_hit(l.last(), r, t_min, ph.t as int);
            lemma_scene_hit_nearest(pre, r, t_min, t_max, ph);
            lemma_scene_hit_member(pre, r, t_min, t_max, ph);
            match cur {
                Some(ch) => {
                    assert(h == ch);
                    sphere::lemma_hit_in_range(l.last(), r, t_min, ph.t as int, ch);
                    sphere::lemma_hit_narrow_some(l.last(), r, t_min, ph.t as int, t_max, ch);
                    assert(h.t < ph.t);
                },
                None => {
                    assert(h == ph);
                },
            }
            assert forall|i: int| 0 <= i < l.len() implies ((#[trigger] sphere::spec_hit(
                l[i],
                r,
                t_min,
                t_max,
            )) matches Some(hi) ==> h.t <= hi.t) by {
                let m = sphere::spec_hit(l[i], r, t_min, t_max);
                match m {
                    Some(hi) => {
                        if i < l.len() - 1 {
                            assert(pre[i] == l[i]);
                            assert(sphere::spec_hit(pre[i], r, t_min, t_max) == m);
                            assert(ph.t <= hi.t);
                        } else {
                            assert(l[i] == l.last());
                            match cur {
                                Some(ch) => {
                                    assert(m == Some(ch));
                                },
                                None => {
                                    sphere::lemma_hit_narrow_none(
                                        l.last(),
                                        r,
                                        t_min,
                                        ph.t as int,
                                        t_max,
                                        hi,
                                    );
                                },
                            }
                        }
                    },
                    None => {},
                }
            }
        },
        None => {
            let cur = sphere::spec_hit(l.last(), r, t_min, t_max);
            assert(cur == Some(h));
            lemma_scene_hit_none(pre, r, t_min, t_max);
            assert forall|i: int| 0 <= i < l.len() implies ((#[trigger] sphere::spec_hit(
                l[i],
                r,
                t_min,
                t_max,
            )) matches Some(hi) ==> h.t <= hi.t) by {
                let m = sphere::spec_hit(l[i], r, t_min, t_max);
                if m is Some && i < l.len() - 1 {
                    assert(pre[i] == l[i]);
                    assert(sphere::spec_hit(pre[i], r, t_min, t_max) is None);
                }
            }
        },
    }
}

} // verus!
