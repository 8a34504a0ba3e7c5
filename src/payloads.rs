use vstd::prelude::*;

verus! {

/// The keys currently held down, by name.
#[derive(Clone, Debug)]
pub struct KeysHeldPayload {
    pub keys: Vec<String>,
}

/// A failure of the keyboard listener and how many times in a row it failed.
#[derive(Clone, Debug)]
pub struct KeyboardListenerErrorPayload {
    pub message: String,
    pub consecutive_failures: u32,
}

/// The authorization code delivered to the local sign-in callback.
#[derive(Clone, Debug)]
pub struct KakaoAuthCodePayload {
    pub code: String,
}

} // verus!
