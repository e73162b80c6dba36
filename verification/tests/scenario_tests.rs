//! End-to-end walks of the search pipeline against canned remote responses:
//! the runtime glue is played by the test, the decisions by the library.

use yuanshen_workarounds_bot::cache::KeyCache;
use yuanshen_workarounds_bot::cache::SigningKey;
use yuanshen_workarounds_bot::query::filter_query;
use yuanshen_workarounds_bot::render::build_reply;
use yuanshen_workarounds_bot::render::ChannelResult;
use yuanshen_workarounds_bot::types::extract_videos;
use yuanshen_workarounds_bot::types::Response;
use yuanshen_workarounds_bot::types::SpaceList;
use yuanshen_workarounds_bot::types::SpaceResponse;
use yuanshen_workarounds_bot::utils::search_params;

const POPULAR_UP: [u64; 3] = [431073645, 635041, 1773346];

fn ok_response(videos: Vec<(u64, &str)>) -> Response {
    Response {
        code: 0,
        message: "0".to_string(),
        data: SpaceResponse {
            list: SpaceList {
                vlist: videos
                    .into_iter()
                    .map(|(aid, title)| yuanshen_workarounds_bot::types::VideoInfo {
                        aid,
                        title: title.to_string(),
                    })
                    .collect(),
            },
        },
    }
}

/// One pass over the channels: obtains the key (deriving only on a cache
/// miss), issues one search per channel, and aggregates. Returns the reply
/// and how many derivations this pass performed.
fn one_query_pass(
    cache: &mut KeyCache,
    now: u64,
    name: &[char],
    responses: Vec<Response>,
) -> (String, u32, u32) {
    let mut derivations = 0;
    let mut searches = 0;
    let mut results: Vec<ChannelResult> = Vec::new();
    for (i, &mid) in POPULAR_UP.iter().enumerate() {
        // Every search asks the cache for the signing key first.
        let key = match cache.lookup(now) {
            Some(k) => k.text.clone(),
            None => {
                derivations += 1;
                let fresh = SigningKey {
                    text: "0123456789abcdef0123456789abcdef".to_string(),
                };
                let text = fresh.text.clone();
                cache.store(fresh, 86400, now);
                text
            }
        };
        let keyword: String = name.iter().collect();
        let params = search_params(mid, &keyword);
        assert_eq!(params.len(), 3);
        assert_eq!(params[0], ("ps".to_string(), "2".to_string()));
        assert_eq!(params[1].0, "mid");
        assert_eq!(params[1].1, mid.to_string());
        assert_eq!(params[2], ("keyword".to_string(), keyword.clone()));
        assert_eq!(key.len(), 32);
        // The signed request and its transport are played by the test; the
        // canned response envelope comes back and is validated.
        searches += 1;
        let resp = extract_videos(responses[i].clone_by_fields());
        results.push(resp);
    }
    (build_reply(&name.to_vec(), &results), derivations, searches)
}

trait CloneByFields {
    fn clone_by_fields(&self) -> Response;
}

impl CloneByFields for Response {
    fn clone_by_fields(&self) -> Response {
        Response {
            code: self.code,
            message: self.message.clone(),
            data: SpaceResponse {
                list: SpaceList {
                    vlist: self
                        .data
                        .list
                        .vlist
                        .iter()
                        .map(|v| yuanshen_workarounds_bot::types::VideoInfo {
                            aid: v.aid,
                            title: v.title.clone(),
                        })
                        .collect(),
                },
            },
        }
    }
}

#[test]
fn cold_cache_one_derivation_three_searches() {
    let text: Vec<char> = "中神通在哪里".chars().collect();
    let name = filter_query(&text).unwrap();
    let keyword: String = name.iter().collect();
    assert_eq!(keyword, "中神通");

    let mut cache = KeyCache::new();
    let responses = vec![
        ok_response(vec![(111, "中神通上"), (112, "中神通下")]),
        ok_response(vec![(221, "中神通实况")]),
        ok_response(vec![]),
    ];
    let (reply, derivations, searches) = one_query_pass(&mut cache, 1000, &name, responses);
    assert_eq!(derivations, 1);
    assert_eq!(searches, 3);
    assert_eq!(
        reply,
        "<a href=\"https://www.bilibili.com/video/av111\">中神通上</a>\n\
         <a href=\"https://www.bilibili.com/video/av112\">中神通下</a>\n\
         <a href=\"https://www.bilibili.com/video/av221\">中神通实况</a>\n"
    );
}

#[test]
fn repeated_query_within_validity_derives_nothing_more() {
    let text: Vec<char> = "中神通在哪里".chars().collect();
    let name = filter_query(&text).unwrap();

    let mut cache = KeyCache::new();
    let responses = || {
        vec![
            ok_response(vec![(111, "中神通上")]),
            ok_response(vec![]),
            ok_response(vec![]),
        ]
    };
    let (_, first_derivations, first_searches) =
        one_query_pass(&mut cache, 1000, &name, responses());
    assert_eq!(first_derivations, 1);
    assert_eq!(first_searches, 3);

    // The identical query arrives again while the key is still valid: the
    // three searches are still issued, but no further key-pair fetch happens.
    let (reply, second_derivations, second_searches) =
        one_query_pass(&mut cache, 5000, &name, responses());
    assert_eq!(second_derivations, 0);
    assert_eq!(second_searches, 3);
    assert_eq!(
        reply,
        "<a href=\"https://www.bilibili.com/video/av111\">中神通上</a>\n"
    );
}
