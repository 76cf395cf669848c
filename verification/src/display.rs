use vstd::prelude::*;

verus! {

/// One pixel format the native server reports: a drawable depth and the bits
/// each pixel of that depth occupies in client memory.
#[derive(Clone, Copy, Debug, PartialEq, Eq, Structural)]
pub struct PixelFormat {
    pub depth: u32,
    pub bits_per_pixel: u32,
}

/// The raw answers a reachable native display server gives during setup:
/// its pixel formats, default depth, screen size, the delete-protocol atom,
/// and whether the keyboard extension answered the capability probe.
pub struct DisplayProbe {
    pub formats: Vec<PixelFormat>,
    pub default_depth: u32,
    pub screen_width: u32,
    pub screen_height: u32,
    pub wm_delete_atom: u64,
    pub keyboard_extension: bool,
}

/// Why connection setup failed.
#[derive(Clone, Copy, Debug, PartialEq, Eq, Structural)]
pub enum DisplayError {
    /// The native display server cannot be reached.
    DisplayUnavailable,
    /// No listed format of the server's default depth uses exactly 32 bits
    /// per pixel, the only layout this design presents.
    UnsupportedPixelFormat,
}

/// The process-wide connection state: the screen facts recorded at setup and
/// the registry of live native surface ids, through which incoming events are
/// resolved back to a window. The registry holds ids only, never owning a
/// window.
pub struct DisplayConnection {
    pub depth: u32,
    pub screen_width: u32,
    pub screen_height: u32,
    pub keyboard_extension: bool,
    pub wm_delete_atom: u64,
    /// The native surface ids of the windows registered right now.
    pub registry: Vec<u64>,
    /// The next surface id to hand out; every registered id is below it.
    pub next_surface_id: u64,
}

/// The bits-per-pixel of the first listed format whose depth matches
/// `depth`, if any format does.
pub open spec fn matching_bpp(formats: Seq<PixelFormat>, depth: u32) -> Option<u32>
    decreases formats.len(),
{
    if formats.len() == 0 {
        None
    } else if formats.first().depth == depth {
        Some(formats.first().bits_per_pixel)
    } else {
        matching_bpp(formats.drop_first(), depth)
    }
}

/// A probe that connection setup accepts: the first format of the default
/// depth uses exactly 32 bits per pixel.
pub open spec fn probe_supported(p: DisplayProbe) -> bool {
    matching_bpp(p.formats@, p.default_depth) == Some(32u32)
}

/// `remove_id(s, id)` is `s` with every occurrence of `id` taken out and the
/// order of the rest kept.
pub open spec fn remove_id(s: Seq<u64>, id: u64) -> Seq<u64>
    decreases s.len(),
{
    if s.len() == 0 {
        s
    } else if s.last() == id {
        remove_id(s.drop_last(), id)
    } else {
        remove_id(s.drop_last(), id).push(s.last())
    }
}

/// Whatever removal keeps was there before.
pub proof fn lemma_remove_id_subset(s: Seq<u64>, id: u64, x: u64)
    requires
        remove_id(s, id).contains(x),
    ensures
        s.contains(x),
    decreases s.len(),
{
    if s.len() > 0 {
        if s.last() == id {
            lemma_remove_id_subset(s.drop_last(), id, x);
            let i = choose|i: int| 0 <= i < s.drop_last().len() && s.drop_last()[i] == x;
            assert(s[i] == x);
        } else {
            let r = remove_id(s.drop_last(), id).push(s.last());
            let i = choose|i: int| 0 <= i < r.len() && r[i] == x;
            if i == r.len() - 1 {
                assert(s.last() == x);
            } else {
                assert(remove_id(s.drop_last(), id)[i] == x);
                lemma_remove_id_subset(s.drop_last(), id, x);
                let j = choose|j: int| 0 <= j < s.drop_last().len() && s.drop_last()[j] == x;
                assert(s[j] == x);
            }
        }
    }
}

/// Law: a deregistered surface id is found by no later lookup, so an event
/// that still carries it resolves to no window instead of a stale one.
pub proof fn lemma_removed_id_not_found(s: Seq<u64>, id: u64)
    ensures
        !remove_id(s, id).contains(id),
    decreases s.len(),
{
    if s.len() > 0 {
        lemma_removed_id_not_found(s.drop_last(), id);
        if s.last() != id {
            let r = remove_id(s.drop_last(), id).push(s.last());
            assert forall|i: int| 0 <= i < r.len() implies r[i] != id by {
                if i < r.len() - 1 {
                    assert(remove_id(s.drop_last(), id)[i] != id);
                }
            }
        }
    }
}

/// Removing one id keeps every other id.
pub proof fn lemma_remove_id_keeps_others(s: Seq<u64>, id: u64, other: u64)
    requires
        other != id,
        s.contains(other),
    ensures
        remove_id(s, id).contains(other),
    decreases s.len(),
{
    if s.len() > 0 {
        if s.last() == other {
            let r = remove_id(s.drop_last(), id).push(other);
            assert(r.last() == other);
            assert(r.contains(other));
        } else {
            let i = choose|i: int| 0 <= i < s.len() && s[i] == other;
            assert(s.drop_last()[i] == other);
            lemma_remove_id_keeps_others(s.drop_last(), id, other);
            if s.last() != id {
                let prev = remove_id(s.drop_last(), id);
                let j = choose|j: int| 0 <= j < prev.len() && prev[j] == other;
                assert(prev.push(s.last())[j] == other);
            }
        }
    }
}

impl DisplayConnection {
    /// The shape every live connection keeps: a 32-bit presentation depth
    /// and a registry of ids all below the next id to hand out, so a fresh
    /// id never collides with a registered one.
    pub open spec fn wf(self) -> bool {
        &&& self.depth == 32u32
        &&& self.next_surface_id >= 1
        &&& forall|i: int| 0 <= i < self.registry@.len() ==> self.registry@[i] < self.next_surface_id
    }

    /// Performs connection setup on the raw answers of the native server.
    /// `None` stands for a server that could not be reached. Succeeds exactly
    /// when the server answered and its default depth comes with a 32-bit
    /// pixel layout; the connection then records the probed screen facts and
    /// starts with an empty window registry. The keyboard-extension probe is
    /// never fatal: its answer is only recorded.
    pub fn connect(probe: Option<DisplayProbe>) -> (r: Result<DisplayConnection, DisplayError>)
        ensures
            match r {
                Ok(c) => {
                    &&& probe is Some
                    &&& probe_supported(probe->0)
                    &&& c.wf()
                    &&& c.depth == 32u32
                    &&& c.screen_width == probe->0.screen_width
                    &&& c.screen_height == probe->0.screen_height
                    &&& c.keyboard_extension == probe->0.keyboard_extension
                    &&& c.wm_delete_atom == probe->0.wm_delete_atom
                    &&& c.registry@.len() == 0
                },
                Err(DisplayError::DisplayUnavailable) => probe is None,
                Err(DisplayError::UnsupportedPixelFormat) => probe is Some && !probe_supported(
                    probe->0,
                ),
            },
    {
        let probe = match probe {
            Some(p) => p,
            None => {
                return Err(DisplayError::DisplayUnavailable);
            },
        };
        let bpp = match first_matching_bpp(&probe.formats, probe.default_depth) {
            Some(b) => b,
            None => {
                return Err(DisplayError::UnsupportedPixelFormat);
            },
        };
        if bpp != 32 {
            return Err(DisplayError::UnsupportedPixelFormat);
        }
        Ok(DisplayConnection {
            depth: 32,
            screen_width: probe.screen_width,
            screen_height: probe.screen_height,
            keyboard_extension: probe.keyboard_extension,
            wm_delete_atom: probe.wm_delete_atom,
            registry: Vec::new(),
            next_surface_id: 1,
        })
    }

    /// Takes every entry for `surface_id` out of the registry, keeping the
    /// rest in order. Part of the close sequence, performed strictly before
    /// the native resources of the surface are released.
    pub fn deregister(&mut self, surface_id: u64)
        requires
            old(self).wf(),
        ensures
            final(self).wf(),
            final(self).registry@ == remove_id(old(self).registry@, surface_id),
            !final(self).registry@.contains(surface_id),
            final(self).depth == old(self).depth,
            final(self).screen_width == old(self).screen_width,
            final(self).screen_height == old(self).screen_height,
            final(self).keyboard_extension == old(self).keyboard_extension,
            final(self).wm_delete_atom == old(self).wm_delete_atom,
            final(self).next_surface_id == old(self).next_surface_id,
    {
        let ghost whole = self.registry@;
        let mut kept: Vec<u64> = Vec::new();
        let mut i: usize = 0;
        proof {
            assert(whole.take(0) =~= Seq::<u64>::empty());
        }
        while i < self.registry.len()
            invariant
                i <= self.registry@.len(),
                self.registry@ == whole,
                kept@ == remove_id(whole.take(i as int), surface_id),
            decreases self.registry@.len() - i as int,
        {
            let v = self.registry[i];
            proof {
                assert(whole.take(i as int + 1).drop_last() =~= whole.take(i as int));
                assert(whole.take(i as int + 1).last() == whole[i as int]);
            }
            if v != surface_id {
                kept.push(v);
            }
            i = i + 1;
        }
        proof {
            assert(whole.take(whole.len() as int) =~= whole);
        }
        self.registry = kept;
        proof {
            lemma_removed_id_not_found(whole, surface_id);
            assert forall|j: int|
                0 <= j < self.registry@.len() implies self.registry@[j]
                < self.next_surface_id by {
                assert(self.registry@.contains(self.registry@[j]));
                lemma_remove_id_subset(whole, surface_id, self.registry@[j]);
                let m = choose|m: int| 0 <= m < whole.len() && whole[m] == self.registry@[j];
                assert(old(self).registry@[m] < old(self).next_surface_id);
            }
        }
    }

    /// Whether a native event addressed to `surface_id` resolves to a live
    /// window. An id never registered, or deregistered by a close, is routed
    /// nowhere.
    pub fn route(&self, surface_id: u64) -> (r: bool)
        ensures
            r == self.registry@.contains(surface_id),
    {
        let mut i: usize = 0;
        while i < self.registry.len()
            invariant
                i <= self.registry@.len(),
                forall|j: int| 0 <= j < i as int ==> self.registry@[j] != surface_id,
            decreases self.registry@.len() - i as int,
        {
            if self.registry[i] == surface_id {
                return true;
            }
            i = i + 1;
        }
        false
    }
}

/// The bits-per-pixel of the first format matching `depth`, as the native
/// format walk of connection setup finds it.
fn first_matching_bpp(formats: &Vec<PixelFormat>, depth: u32) -> (r: Option<u32>)
    ensures
        r == matching_bpp(formats@, depth),
{
    let mut i: usize = 0;
    assert(formats@.skip(0) =~= formats@);
    while i < formats.len()
        invariant
            i <= formats@.len(),
            matching_bpp(formats@, depth) == matching_bpp(formats@.skip(i as int), depth),
            forall|j: int| 0 <= j < i as int ==> formats@[j].depth != depth,
        decreases formats@.len() - i as int,
    {
        if formats[i].depth == depth {
            assert(formats@.skip(i as int).first() == formats@[i as int]);
            return Some(formats[i].bits_per_pixel);
        }
        assert(formats@.skip(i as int).drop_first() =~= formats@.skip(i as int + 1));
        i = i + 1;
    }
    assert(formats@.skip(i as int).len() == 0);
    None
}

} // verus!
