use std::sync::Arc;

use calculator::{AdminService, CalculationRequest, CalculatorService, GetCountRequest, State};
use tokio::sync::RwLock;

#[test]
fn concurrent_requests_are_all_counted() {
    let runtime = tokio::runtime::Builder::new_multi_thread()
        .worker_threads(4)
        .build()
        .unwrap();
    let state = Arc::new(RwLock::new(State::default()));

    runtime.block_on(async {
        let mut callers = Vec::new();
        for caller in 0..8i64 {
            let state = Arc::clone(&state);
            callers.push(tokio::spawn(async move {
                for n in 0..50i64 {
                    let input = CalculationRequest { a: caller, b: n % 3 };
                    {
                        let mut state = state.write().await;
                        if n % 2 == 0 {
                            CalculatorService::add(&mut state, &input);
                        } else {
                            let outcome = CalculatorService::divide(&mut state, &input);
                            assert_eq!(outcome.is_err(), input.b == 0);
                        }
                    }
                    tokio::task::yield_now().await;
                }
            }));
        }
        for caller in callers {
            caller.await.unwrap();
        }

        let state = state.read().await;
        let response = AdminService::get_request_count(&state, &GetCountRequest {});
        assert_eq!(response.count, 400);
    });
}

#[test]
fn readers_see_a_count_between_the_first_and_the_last() {
    let runtime = tokio::runtime::Builder::new_multi_thread()
        .worker_threads(4)
        .build()
        .unwrap();
    let state = Arc::new(RwLock::new(State::default()));

    runtime.block_on(async {
        let writer = {
            let state = Arc::clone(&state);
            tokio::spawn(async move {
                for n in 0..200i64 {
                    let mut state = state.write().await;
                    CalculatorService::add(&mut state, &CalculationRequest { a: n, b: n });
                }
            })
        };
        let reader = {
            let state = Arc::clone(&state);
            tokio::spawn(async move {
                let mut last = 0;
                for _ in 0..200 {
                    let count = {
                        let state = state.read().await;
                        AdminService::get_request_count(&state, &GetCountRequest {}).count
                    };
                    assert!(last <= count && count <= 200);
                    last = count;
                    tokio::task::yield_now().await;
                }
            })
        };
        writer.await.unwrap();
        reader.await.unwrap();

        let state = state.read().await;
        assert_eq!(state.count(), 200);
    });
}
