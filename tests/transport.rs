use rk_configurator::transport::{after_write, next_action, SendAction, SendError};

fn run(buffers: &Vec<Vec<u8>>, fail_at: Option<usize>) -> (Vec<usize>, Result<(), SendError>) {
    let mut sent = Vec::new();
    let mut written = 0usize;
    loop {
        match next_action(buffers, written) {
            SendAction::Finish => return (sent, Ok(())),
            SendAction::Abort(e) => return (sent, Err(e)),
            SendAction::Transmit(i) => {
                sent.push(i);
                match after_write(i, fail_at != Some(i)) {
                    Ok(n) => written = n,
                    Err(e) => return (sent, Err(e)),
                }
            }
        }
    }
}

#[test]
fn write_failure_stops_the_send() {
    let buffers = vec![vec![0u8; 65]; 5];
    let (sent, res) = run(&buffers, Some(2));
    assert_eq!(sent, vec![0, 1, 2]);
    assert_eq!(res, Err(SendError::WriteFailed(2)));
}

#[test]
fn all_reports_are_sent_in_order() {
    let buffers = vec![vec![0u8; 65]; 4];
    let (sent, res) = run(&buffers, None);
    assert_eq!(sent, vec![0, 1, 2, 3]);
    assert_eq!(res, Ok(()));
}

#[test]
fn wrong_size_is_never_sent() {
    let buffers = vec![vec![0u8; 65], vec![0u8; 64], vec![0u8; 65]];
    let (sent, res) = run(&buffers, None);
    assert_eq!(sent, vec![0]);
    assert_eq!(res, Err(SendError::BufferSize { index: 1, len: 64 }));
}
