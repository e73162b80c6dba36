use yuanshen_workarounds_bot::types::extract_videos;
use yuanshen_workarounds_bot::types::FetchError;
use yuanshen_workarounds_bot::types::Response;
use yuanshen_workarounds_bot::types::SpaceList;
use yuanshen_workarounds_bot::types::SpaceResponse;
use yuanshen_workarounds_bot::types::VideoInfo;

fn response(code: i64, message: &str, videos: Vec<(u64, &str)>) -> Response {
    Response {
        code,
        message: message.to_string(),
        data: SpaceResponse {
            list: SpaceList {
                vlist: videos
                    .into_iter()
                    .map(|(aid, title)| VideoInfo { aid, title: title.to_string() })
                    .collect(),
            },
        },
    }
}

#[test]
fn zero_code_yields_the_pairs_in_order() {
    let r = extract_videos(response(0, "0", vec![(3, "丙"), (1, "甲"), (2, "乙")]));
    let videos = r.unwrap();
    assert_eq!(
        videos,
        vec![
            (3, "丙".to_string()),
            (1, "甲".to_string()),
            (2, "乙".to_string())
        ]
    );
}

#[test]
fn zero_code_with_empty_payload_yields_an_empty_list() {
    let r = extract_videos(response(0, "0", vec![]));
    assert_eq!(r.unwrap(), vec![]);
}

#[test]
fn non_zero_code_is_a_remote_rejection_with_code_and_message() {
    let r = extract_videos(response(-412, "请求被拦截", vec![(9, "流量异常")]));
    match r {
        Err(FetchError::RemoteRejected { code, message }) => {
            assert_eq!(code, -412);
            assert_eq!(message, "请求被拦截");
        }
        _ => panic!("expected a remote rejection"),
    }
}
