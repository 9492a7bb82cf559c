//! Where the artifacts of a session are stored and under which address they are served.

use vstd::prelude::*;
use vstd::string::StringExecFns;

verus! {

/// `root`, the session, a slash, the artifact's name and the extension, in that order.
pub open spec fn artifact_location(
    root: Seq<char>,
    device_id: Seq<char>,
    name: Seq<char>,
    extension: Seq<char>,
) -> Seq<char> {
    root + device_id + "/"@ + name + extension
}

pub open spec fn audio_path_of(device_id: Seq<char>, name: Seq<char>) -> Seq<char> {
    artifact_location("./tmp/ava-bot/audio/"@, device_id, name, ".mp3"@)
}

pub open spec fn audio_url_of(device_id: Seq<char>, name: Seq<char>) -> Seq<char> {
    artifact_location("./assets/audio/"@, device_id, name, ".mp3"@)
}

pub open spec fn image_path_of(device_id: Seq<char>, name: Seq<char>) -> Seq<char> {
    artifact_location("./tmp/ava-bot/image/"@, device_id, name, ".png"@)
}

pub open spec fn image_url_of(device_id: Seq<char>, name: Seq<char>) -> Seq<char> {
    artifact_location("./assets/image/"@, device_id, name, ".png"@)
}

fn locate(root: &str, device_id: &str, name: &str, extension: &str) -> (location: String)
    ensures
        location@ == artifact_location(root@, device_id@, name@, extension@),
{
    String::from_str(root).concat(device_id).concat("/").concat(name).concat(extension)
}

/// Where the synthesized audio `name` of a session is stored.
pub fn audio_path(device_id: &str, name: &str) -> (path: String)
    ensures
        path@ == audio_path_of(device_id@, name@),
{
    locate("./tmp/ava-bot/audio/", device_id, name, ".mp3")
}

/// The address under which the synthesized audio `name` of a session is served.
pub fn audio_url(device_id: &str, name: &str) -> (url: String)
    ensures
        url@ == audio_url_of(device_id@, name@),
{
    locate("./assets/audio/", device_id, name, ".mp3")
}

/// Where the generated image `name` of a session is stored.
pub fn image_path(device_id: &str, name: &str) -> (path: String)
    ensures
        path@ == image_path_of(device_id@, name@),
{
    locate("./tmp/ava-bot/image/", device_id, name, ".png")
}

/// The address under which the generated image `name` of a session is served.
pub fn image_url(device_id: &str, name: &str) -> (url: String)
    ensures
        url@ == image_url_of(device_id@, name@),
{
    locate("./assets/image/", device_id, name, ".png")
}

/// The stored location and the served address of one artifact differ in their root alone.
pub proof fn lemma_url_mirrors_path(device_id: Seq<char>, name: Seq<char>)
    ensures
        audio_path_of(device_id, name).skip("./tmp/ava-bot/audio/"@.len() as int)
            == audio_url_of(device_id, name).skip("./assets/audio/"@.len() as int),
        image_path_of(device_id, name).skip("./tmp/ava-bot/image/"@.len() as int)
            == image_url_of(device_id, name).skip("./assets/image/"@.len() as int),
{
    let tail_audio = device_id + "/"@ + name + ".mp3"@;
    let tail_image = device_id + "/"@ + name + ".png"@;
    assert(audio_path_of(device_id, name) =~= "./tmp/ava-bot/audio/"@ + tail_audio);
    assert(audio_url_of(device_id, name) =~= "./assets/audio/"@ + tail_audio);
    assert(image_path_of(device_id, name) =~= "./tmp/ava-bot/image/"@ + tail_image);
    assert(image_url_of(device_id, name) =~= "./assets/image/"@ + tail_image);
    assert(("./tmp/ava-bot/audio/"@ + tail_audio).skip("./tmp/ava-bot/audio/"@.len() as int)
        =~= tail_audio);
    assert(("./assets/audio/"@ + tail_audio).skip("./assets/audio/"@.len() as int)
        =~= tail_audio);
    assert(("./tmp/ava-bot/image/"@ + tail_image).skip("./tmp/ava-bot/image/"@.len() as int)
        =~= tail_image);
    assert(("./assets/image/"@ + tail_image).skip("./assets/image/"@.len() as int)
        =~= tail_image);
}

} // verus!
