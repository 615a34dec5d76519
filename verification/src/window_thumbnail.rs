//! A cache of the pictures of windows, one picture per window.
//!
//! What a picture is, and how it is taken, is the business of whoever draws
//! the windows: the cache keeps a value of any type under the handle of its
//! window and has it made when it is first asked for.

use vstd::prelude::*;
use std::collections::HashMap;

verus! {

/// The pictures that were made so far, by the handle of their window.
pub struct ThumbnailCache<T> {
    textures: HashMap<isize, T>,
}

impl<T> View for ThumbnailCache<T> {
    type V = Map<isize, T>;

    closed spec fn view(&self) -> Map<isize, T> {
        self.textures@
    }
}

impl<T> ThumbnailCache<T> {
    /// A cache without pictures.
    pub fn new() -> (r: Self)
        ensures
            r@ == Map::<isize, T>::empty(),
    {
        ThumbnailCache { textures: HashMap::new() }
    }

    /// The picture of the window with handle `hwnd`.  A picture that the
    /// cache holds is returned as it is.  Otherwise `capture` is asked for
    /// one; if it makes one, the cache keeps it from now on, and if it makes
    /// none, the cache stays as it was and there is no picture.
    pub fn get_or_create_thumbnail<F: FnOnce(isize) -> Option<T>>(
        &mut self,
        hwnd: isize,
        capture: F,
    ) -> (r: Option<&T>)
        requires
            call_requires(capture, (hwnd,)),
        ensures
            old(self)@.contains_key(hwnd) ==> final(self)@ == old(self)@ && r == Some(
                &old(self)@[hwnd],
            ),
            !old(self)@.contains_key(hwnd) ==> exists|made: Option<T>|
                #[trigger] call_ensures(capture, (hwnd,), made) && match made {
                    Some(picture) => final(self)@ == old(self)@.insert(hwnd, picture) && r == Some(
                        &picture,
                    ),
                    None => final(self)@ == old(self)@ && r is None,
                },
    {
        broadcast use vstd::std_specs::hash::group_hash_axioms;

        if !self.textures.contains_key(&hwnd) {
            let made = capture(hwnd);
            match made {
                Some(picture) => {
                    self.textures.insert(hwnd, picture);
                },
                None => {
                    return None;
                },
            }
        }
        self.textures.get(&hwnd)
    }

    /// Forgets every picture.
    pub fn clear(&mut self)
        ensures
            final(self)@ == Map::<isize, T>::empty(),
    {
        self.textures.clear();
    }
}

} // verus!
