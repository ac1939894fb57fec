use std::sync::Arc;

use florust::default_plugins::DefaultIIntegerDataManager;
use florust::manager_and_data::{ManagerAndDataError, TypedManagerAndData};
use florust::server_plugin::FlorustServerPluginError;
use rocket::tokio::runtime::Builder;
use rocket::tokio::sync::RwLock;
use rocket::tokio::task::JoinHandle;

type Shared = Arc<RwLock<TypedManagerAndData<i64, DefaultIIntegerDataManager>>>;

fn shared(capacity: usize) -> Shared {
    Arc::new(RwLock::new(TypedManagerAndData::new(DefaultIIntegerDataManager, capacity)))
}

#[test]
fn parallel_updates_of_distinct_sources_all_succeed() {
    let workers_runtime = Builder::new_multi_thread().worker_threads(4).build().unwrap();
    workers_runtime.block_on(async {
        let runtime = shared(4);
        let n = 16i64;
        for i in 0..n {
            assert_eq!(runtime.write().await.register(format!("s{}", i)), Ok(()));
        }
        let mut workers: Vec<JoinHandle<Result<(), ManagerAndDataError>>> = Vec::new();
        for i in 0..n {
            let runtime = runtime.clone();
            workers.push(rocket::tokio::spawn(async move {
                runtime.write().await.update_data(&format!("s{}", i), &i.to_be_bytes())
            }));
        }
        for worker in workers {
            assert_eq!(worker.await.unwrap(), Ok(()));
        }
        for i in 0..n {
            let runtime = runtime.read().await;
            assert_eq!(runtime.get_data(&format!("s{}", i), 0), Ok(i));
            assert_eq!(
                runtime.get_data(&format!("s{}", i), 1),
                Err(ManagerAndDataError::IndexOutOfBounds)
            );
        }
    });
}

#[test]
fn parallel_registrations_of_one_source_succeed_once() {
    let workers_runtime = Builder::new_multi_thread().worker_threads(4).build().unwrap();
    workers_runtime.block_on(async {
        let runtime = shared(4);
        let m = 12;
        let mut workers: Vec<JoinHandle<Result<(), ManagerAndDataError>>> = Vec::new();
        for _ in 0..m {
            let runtime = runtime.clone();
            workers.push(rocket::tokio::spawn(async move {
                runtime.write().await.register("s1".to_string())
            }));
        }
        let mut successes = 0;
        let mut refusals = 0;
        for worker in workers {
            match worker.await.unwrap() {
                Ok(()) => successes += 1,
                Err(err) => {
                    assert_eq!(
                        err,
                        ManagerAndDataError::DataSourceManager(
                            FlorustServerPluginError::DataSourceAlreadyExists("s1".to_string())
                        )
                    );
                    refusals += 1;
                }
            }
        }
        assert_eq!(successes, 1);
        assert_eq!(refusals, m - 1);
    });
}
