//! What the long-running loops of a node do in one turn. Running the turns
//! one after the other, each loop on a thread of its own and with a pause
//! where one is due, is left to the program around this library. The
//! heartbeat needs no turn of its own: it is `RedisStore::ping`.

pub mod scheduler_thread;
pub mod worker_thread;
